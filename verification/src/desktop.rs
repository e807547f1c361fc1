//! The desktop player: its command line, its commands, and what its audio
//! worker does with them.
//!
//! One audio worker owns the [`PlayerBackend`] and its [`PluginCatalog`],
//! ticking the catalog every loop so the decoder set follows the update
//! channel: pulled, verified, and activated at the mount/stop boundary
//! without a restart.
//!
//! ```text
//! retrovert-player-desktop [--root DIR] [--interval SECS] [--no-auto-apply] [FILES..]
//!
//! > play <path|index>   mount media (bare index picks from FILES)
//! > stop                drop the session
//! > status              catalog, updater, and playback state
//! > check               ask the channel now
//! > quit
//! ```

use std::path::PathBuf;
use vstd::prelude::*;
use vstd::string::*;

use crate::catalog::{CatalogView, PluginCatalog, Step};
use crate::config::{CatalogConfig, ChannelConfig, Interval};
use crate::generation::Generation;
use crate::player::{BackendView, PlaybackStatus, PlayerBackend};
use crate::record::{events, Event, EventKind, EventView};
use crate::text::{number_within, parse_number, same, split_whitespace, texts, words};
use crate::tree::{TreePath, TreePathView};

verus! {

/// Where the channel this player follows publishes its metadata.
pub const DEV_METADATA: &'static str =
    "https://github.com/RetrovertApp/playback_plugins/releases/download/dev/channel-metadata/";

/// Where the channel this player follows publishes its artifacts.
pub const DEV_ARTIFACTS: &'static str =
    "https://github.com/RetrovertApp/playback_plugins/releases/download/dev/v{version}/";

/// The output's sample rate.
pub const SAMPLE_RATE: u32 = 48_000;

/// The output's channel count.
pub const CHANNELS: u16 = 2;

/// How much is decoded at once.
pub const MAX_FRAMES: u32 = 4_096;

/// How much audio the worker keeps decoded ahead of the device: a fifth of a
/// second.
pub const BUFFERED_SAMPLES: usize = 19_200;

/// How many entries of the history a status shows.
pub const SHOWN_HISTORY: usize = 5;

/// What the command line is used like.
pub const USAGE: &'static str =
    "usage: retrovert-player-desktop [--root DIR] [--interval SECS] [--no-auto-apply] [FILES..]";

/// The directory the catalog owns.
#[derive(Debug)]
pub enum Root {
    /// The one below the user's home.
    Home(TreePath),
    /// The one the command line names.
    Given(String),
}

/// What the command line asks for.
#[derive(Debug)]
pub struct Options {
    /// The directory the catalog owns.
    pub root: Root,
    /// The shortest time between two channel checks.
    pub interval: Interval,
    /// Whether updates download by themselves.
    pub auto_apply: bool,
    /// The media that a bare index picks from.
    pub files: Vec<String>,
}

/// A [`Root`] with its text as characters.
#[verifier::ext_equal]
pub enum RootView {
    Home(TreePathView),
    Given(Seq<char>),
}

/// [`Options`] with their text as characters.
#[verifier::ext_equal]
pub struct OptionsView {
    pub root: RootView,
    pub interval: Interval,
    pub auto_apply: bool,
    pub files: Seq<Seq<char>>,
}

impl View for Root {
    type V = RootView;

    open spec fn view(&self) -> RootView {
        match self {
            Root::Home(place) => RootView::Home(place@),
            Root::Given(path) => RootView::Given(path@),
        }
    }
}

impl View for Options {
    type V = OptionsView;

    open spec fn view(&self) -> OptionsView {
        OptionsView {
            root: self.root@,
            interval: self.interval,
            auto_apply: self.auto_apply,
            files: texts(self.files@),
        }
    }
}

/// What `args` make of `options`, or why they cannot be followed.
pub open spec fn obeyed(options: OptionsView, args: Seq<Seq<char>>) -> Result<
    OptionsView,
    Seq<char>,
>
    decreases args.len(),
{
    if args.len() == 0 {
        Ok(options)
    } else if args[0] == "--root"@ {
        if args.len() < 2 {
            Err("--root needs a path"@)
        } else {
            obeyed(OptionsView { root: RootView::Given(args[1]), ..options }, args.skip(2))
        }
    } else if args[0] == "--interval"@ {
        if args.len() < 2 || number_within(args[1], u64::MAX as nat) is None {
            Err("--interval needs whole seconds"@)
        } else {
            let secs = number_within(args[1], u64::MAX as nat)->0 as u64;
            obeyed(OptionsView { interval: Interval { secs, nanos: 0 }, ..options }, args.skip(2))
        }
    } else if args[0] == "--no-auto-apply"@ {
        obeyed(OptionsView { auto_apply: false, ..options }, args.skip(1))
    } else if args[0] == "--help"@ || args[0] == "-h"@ {
        Err(USAGE@)
    } else {
        obeyed(OptionsView { files: options.files.push(args[0]), ..options }, args.skip(1))
    }
}

/// The options before the command line says anything.
pub open spec fn unasked(root: TreePathView) -> OptionsView {
    OptionsView {
        root: RootView::Home(root),
        interval: Interval { secs: 30, nanos: 0 },
        auto_apply: true,
        files: Seq::empty(),
    }
}

/// Reads the command line behind the program's name. Without a default root
/// it is not looked at.
pub fn parse_args(default_root: Result<TreePath, String>, args: &Vec<String>) -> (r: Result<
    Options,
    String,
>)
    ensures
        match default_root {
            Err(why) => r == Err::<Options, String>(why),
            Ok(root) => (match r {
                Ok(options) => Ok(options@),
                Err(why) => Err(why@),
            }) == obeyed(unasked(root@), texts(args@)),
        },
{
    let mut options = match default_root {
        Ok(root) => Options {
            root: Root::Home(root),
            interval: Interval::from_secs(30),
            auto_apply: true,
            files: Vec::new(),
        },
        Err(why) => return Err(why),
    };
    let ghost all = texts(args@);
    let ghost asked = obeyed(options@, all);
    assert(options@ == unasked(default_root->Ok_0@));
    assert(all.skip(0) == all);
    let mut at: usize = 0;
    while at < args.len()
        invariant
            at <= args.len(),
            all == texts(args@),
            asked == obeyed(unasked(default_root->Ok_0@), all),
            asked == obeyed(options@, all.skip(at as int)),
            default_root is Ok,
        decreases args.len() - at,
    {
        let argument = args[at].as_str();
        let ghost rest = all.skip(at as int);
        let ghost was = options@;
        proof {
            assert(rest[0] == argument@);
            if at + 1 < args.len() {
                assert(rest[1] == args@[at + 1]@);
                assert(rest.skip(2) == all.skip(at + 2));
            }
            assert(rest.skip(1) == all.skip(at + 1));
        }
        if same(argument, "--root") {
            if args.len() - at < 2 {
                return Err("--root needs a path".to_owned());
            }
            options.root = Root::Given(args[at + 1].clone());
            assert(options@ == (OptionsView { root: RootView::Given(rest[1]), ..was }));
            at += 2;
        } else if same(argument, "--interval") {
            if args.len() - at < 2 {
                return Err("--interval needs whole seconds".to_owned());
            }
            match parse_number(args[at + 1].as_str(), u64::MAX) {
                Some(seconds) => {
                    options.interval = Interval::from_secs(seconds);
                },
                None => return Err("--interval needs whole seconds".to_owned()),
            }
            at += 2;
        } else if same(argument, "--no-auto-apply") {
            options.auto_apply = false;
            at += 1;
        } else if same(argument, "--help") || same(argument, "-h") {
            return Err(USAGE.to_owned());
        } else {
            let ghost files = options.files@;
            options.files.push(args[at].clone());
            assert(texts(options.files@) == texts(files).push(argument@));
            at += 1;
        }
    }
    assert(all.skip(at as int).len() == 0);
    Ok(options)
}

/// The root below the user's home, which is the first of the two that is set.
pub fn default_root(home: Option<PathBuf>, user_profile: Option<PathBuf>) -> (r: Result<
    TreePath,
    String,
>)
    ensures
        match (home, user_profile) {
            (Some(home), _) => r matches Ok(root) && root@ == (TreePathView {
                base: home,
                segments: seq![".retrovert-player"@],
            }),
            (None, Some(profile)) => r matches Ok(root) && root@ == (TreePathView {
                base: profile,
                segments: seq![".retrovert-player"@],
            }),
            (None, None) => r matches Err(why) && why@ == "no HOME to place --root under"@,
        },
{
    let base = match home {
        Some(home) => home,
        None => match user_profile {
            Some(profile) => profile,
            None => return Err("no HOME to place --root under".to_owned()),
        },
    };
    let r = TreePath::new(base).join(".retrovert-player");
    assert(r@.segments == seq![".retrovert-player"@]);
    Ok(r)
}

/// What the audio worker can be told to do.
#[derive(Debug)]
pub enum Command {
    Play(String),
    Stop,
    Status,
    Check,
    Quit,
}

/// A [`Command`] with its text as characters.
#[verifier::ext_equal]
pub enum CommandView {
    Play(Seq<char>),
    Stop,
    Status,
    Check,
    Quit,
}

impl View for Command {
    type V = CommandView;

    open spec fn view(&self) -> CommandView {
        match self {
            Command::Play(path) => CommandView::Play(path@),
            Command::Stop => CommandView::Stop,
            Command::Status => CommandView::Status,
            Command::Check => CommandView::Check,
            Command::Quit => CommandView::Quit,
        }
    }
}

/// What a line that the user typed comes to.
#[derive(Debug)]
pub enum Input {
    /// A command for the worker.
    Send(Command),
    /// The end of the commands.
    Leave,
    /// Nothing.
    Skip,
    /// Something to tell the user.
    Complain(String),
}

/// An [`Input`] with its text as characters.
#[verifier::ext_equal]
pub enum InputView {
    Send(CommandView),
    Leave,
    Skip,
    Complain(Seq<char>),
}

impl View for Input {
    type V = InputView;

    open spec fn view(&self) -> InputView {
        match self {
            Input::Send(command) => InputView::Send(command@),
            Input::Leave => InputView::Leave,
            Input::Skip => InputView::Skip,
            Input::Complain(why) => InputView::Complain(why@),
        }
    }
}

/// The media that `what` names: one of `files` by its index, or a path.
pub open spec fn resolved(files: Seq<Seq<char>>, what: Seq<char>) -> Seq<char> {
    match number_within(what, usize::MAX as nat) {
        Some(index) => if index < files.len() {
            files[index as int]
        } else {
            what
        },
        None => what,
    }
}

/// A bare index picks from the files given on the command line.
pub fn resolve_file(files: &Vec<String>, what: &str) -> (r: String)
    ensures
        r@ == resolved(texts(files@), what@),
{
    if let Some(index) = parse_number(what, usize::MAX as u64) {
        if index < files.len() as u64 {
            return files[index as usize].clone();
        }
    }
    what.to_owned()
}

/// What a line of these `said` words comes to, with `files` to pick from.
pub open spec fn understood(said: Seq<Seq<char>>, files: Seq<Seq<char>>) -> InputView {
    if said.len() == 0 {
        InputView::Skip
    } else if said[0] == "play"@ && said.len() > 1 {
        InputView::Send(CommandView::Play(resolved(files, said[1])))
    } else if said[0] == "stop"@ {
        InputView::Send(CommandView::Stop)
    } else if said[0] == "status"@ {
        InputView::Send(CommandView::Status)
    } else if said[0] == "check"@ {
        InputView::Send(CommandView::Check)
    } else if said[0] == "quit"@ || said[0] == "exit"@ {
        InputView::Leave
    } else {
        InputView::Complain("unknown command: "@ + said[0])
    }
}

/// Reads a line that the user typed.
pub fn parse_line(line: &str, files: &Vec<String>) -> (r: Input)
    ensures
        r@ == understood(words(line@), texts(files@)),
{
    let said = split_whitespace(line);
    let ghost heard = texts(said@);
    if said.len() == 0 {
        return Input::Skip;
    }
    let first = said[0].as_str();
    assert(heard[0] == first@);
    if same(first, "play") && said.len() > 1 {
        assert(heard[1] == said@[1]@);
        Input::Send(Command::Play(resolve_file(files, said[1].as_str())))
    } else if same(first, "stop") {
        Input::Send(Command::Stop)
    } else if same(first, "status") {
        Input::Send(Command::Status)
    } else if same(first, "check") {
        Input::Send(Command::Check)
    } else if same(first, "quit") || same(first, "exit") {
        Input::Leave
    } else {
        let mut why = "unknown command: ".to_owned();
        why.append(first);
        Input::Complain(why)
    }
}

/// How many frames are decoded at once with `buffered` samples ahead of the
/// device; none at all when it has enough.
pub open spec fn refill(buffered: nat) -> Option<nat> {
    if buffered >= BUFFERED_SAMPLES {
        None
    } else {
        let missing = ((BUFFERED_SAMPLES - buffered) / CHANNELS as int) as nat;
        Some(
            if missing < MAX_FRAMES {
                missing
            } else {
                MAX_FRAMES as nat
            },
        )
    }
}

/// How many frames to decode with `buffered` samples ahead of the device.
pub fn top_up(buffered: usize) -> (r: Option<u32>)
    ensures
        (match r {
            Some(frames) => Some(frames as nat),
            None => None,
        }) == refill(buffered as nat),
{
    if buffered >= BUFFERED_SAMPLES {
        return None;
    }
    let missing: u32 = ((BUFFERED_SAMPLES - buffered) / CHANNELS as usize) as u32;
    if missing < MAX_FRAMES {
        Some(missing)
    } else {
        Some(MAX_FRAMES)
    }
}

/// What a worker's catalog is configured with: the development channel, for
/// the platform's own target.
pub fn worker_config<W>(
    options: &Options,
    root: TreePath,
    embedded_root: Vec<u8>,
    native_target: Option<&str>,
    workers: W,
) -> (r: CatalogConfig<W>)
    ensures
        r.root == root,
        r.cache_dir@ == root@.join("cache"@),
        r.trust_state_dir@ == root@.join("trust-state"@),
        r.channel.metadata_base_url@ == DEV_METADATA@,
        r.channel.artifact_base_url@ == DEV_ARTIFACTS@,
        r.embedded_root == embedded_root,
        r.target@ == (match native_target {
            Some(target) => target@,
            None => "linux-x86_64"@,
        }),
        r.check_interval == options.interval,
        r.auto_apply == options.auto_apply,
        r.workers == workers,
{
    let channel = ChannelConfig {
        metadata_base_url: DEV_METADATA.to_owned(),
        artifact_base_url: DEV_ARTIFACTS.to_owned(),
    };
    let target = match native_target {
        Some(target) => target.to_owned(),
        None => "linux-x86_64".to_owned(),
    };
    let mut config = CatalogConfig::beneath(root, channel, embedded_root, target, workers);
    config.check_interval = options.interval;
    config.auto_apply = options.auto_apply;
    config
}

/// What the worker finds when it looks for a command.
#[derive(Debug)]
pub enum Received {
    /// One.
    Command(Command),
    /// None yet.
    Nothing,
    /// None ever again.
    Disconnected,
}

/// What the worker's host is to do for a command.
#[derive(Debug)]
pub enum Duty {
    /// Mount the media at this path, through the catalog.
    Mount(String),
    /// Show where everything stands.
    Show,
    /// Ask the channel now.
    Check,
    /// End the loop.
    Return,
    /// Nothing.
    Nothing,
}

/// The name of a generation, or that there is none.
pub open spec fn id_or_none(id: Option<Seq<char>>) -> Seq<char> {
    match id {
        Some(id) => id,
        None => "none"@,
    }
}

fn say_id(id: Option<&str>) -> (r: String)
    ensures
        r@ == id_or_none(
            match id {
                Some(id) => Some(id@),
                None => None,
            },
        ),
{
    match id {
        Some(id) => id.to_owned(),
        None => "none".to_owned(),
    }
}

/// The player without its session when that is finished.
pub open spec fn without_finished(backend: BackendView) -> BackendView {
    if backend.status() == PlaybackStatus::Finished {
        backend.closed()
    } else {
        backend
    }
}

/// The audio worker: keeps the ring fed, and closes finished sessions so the
/// catalog can activate at the stop boundary.
#[derive(Debug)]
pub struct Worker {
    announced: Option<String>,
}

impl View for Worker {
    type V = Option<Seq<char>>;

    /// The generation it last announced as active.
    closed spec fn view(&self) -> Option<Seq<char>> {
        match self.announced {
            Some(id) => Some(id@),
            None => None,
        }
    }
}

impl Worker {
    /// A worker that announced nothing yet.
    pub fn new() -> (r: Self)
        ensures
            r@ == None::<Seq<char>>,
    {
        Worker { announced: None }
    }

    /// Take in what came from the commands. A stop drops the session.
    pub fn receive(&self, received: Received, backend: &mut PlayerBackend) -> (r: Duty)
        ensures
            match received {
                Received::Command(Command::Play(path)) => r == Duty::Mount(path),
                Received::Command(Command::Status) => r == Duty::Show,
                Received::Command(Command::Check) => r == Duty::Check,
                Received::Command(Command::Quit) => r == Duty::Return,
                Received::Disconnected => r == Duty::Return,
                _ => r == Duty::Nothing,
            },
            final(backend)@ == (match received {
                Received::Command(Command::Stop) => old(backend)@.closed(),
                _ => old(backend)@,
            }),
    {
        match received {
            Received::Command(Command::Play(path)) => Duty::Mount(path),
            Received::Command(Command::Stop) => {
                backend.close();
                Duty::Nothing
            },
            Received::Command(Command::Status) => Duty::Show,
            Received::Command(Command::Check) => Duty::Check,
            Received::Command(Command::Quit) => Duty::Return,
            Received::Nothing => Duty::Nothing,
            Received::Disconnected => Duty::Return,
        }
    }

    /// One pump of the catalog from the worker's loop, and whether a song was
    /// finished.
    ///
    /// A finished song leaves the boundary open for activation: its session
    /// is dropped before the catalog is ticked.
    pub fn pump(
        &self,
        found: Vec<Generation>,
        completed: Option<Generation>,
        catalog: &mut PluginCatalog,
        backend: &mut PlayerBackend,
    ) -> (r: (bool, Step))
        ensures
            r.0 == (old(backend)@.status() == PlaybackStatus::Finished),
            final(backend)@ == without_finished(old(backend)@),
            final(catalog).same_places(old(catalog)),
            (final(catalog)@, r.1@) == old(catalog)@.tick(
                found@,
                completed,
                without_finished(old(backend)@).session is Some,
            ),
    {
        let finished = backend.status() == PlaybackStatus::Finished;
        if finished {
            backend.close();
        }
        (finished, catalog.tick(found, completed, backend))
    }

    /// Take in whether decoding for the device failed. A failure drops the
    /// session.
    pub fn fed(&self, failed: bool, backend: &mut PlayerBackend)
        ensures
            final(backend)@ == (if failed {
                old(backend)@.closed()
            } else {
                old(backend)@
            }),
    {
        if failed {
            backend.close();
        }
    }

    /// What to print when another generation became active than was last
    /// announced.
    pub fn announce(&mut self, catalog: &PluginCatalog) -> (r: Option<String>)
        ensures
            final(self)@ == catalog@.loaded,
            if catalog@.loaded == old(self)@ {
                r is None
            } else {
                r matches Some(line) && line@ == "catalog: active generation is now "@
                    + id_or_none(catalog@.loaded)
            },
    {
        let active = catalog.active_generation();
        let known = match (&self.announced, active) {
            (Some(announced), Some(id)) => *announced == id.to_owned(),
            (None, None) => true,
            _ => false,
        };
        if known {
            return None;
        }
        let mut line = "catalog: active generation is now ".to_owned();
        line.append(say_id(active).as_str());
        self.announced = match active {
            Some(id) => Some(id.to_owned()),
            None => None,
        };
        Some(line)
    }
}

/// What to print once the media that the host shows as `path` plays.
pub fn playing_line(path: &str, backend: &PlayerBackend, catalog: &PluginCatalog) -> (r: String)
    ensures
        r@ == "playing "@ + path@ + " via "@ + (match backend@.session {
            Some(session) => session.plugin_name,
            None => ""@,
        }) + " (generation "@ + id_or_none(catalog@.loaded) + ")"@,
{
    let mut r = "playing ".to_owned();
    r.append(path);
    r.append(" via ");
    r.append(backend.plugin_name());
    r.append(" (generation ");
    r.append(say_id(catalog.active_generation()).as_str());
    r.append(")");
    r
}

/// Where the updater stands, as the host displays it.
#[derive(Debug)]
pub struct UpdaterStatus {
    /// What it is doing.
    pub phase: String,
    /// How far it is, in percent.
    pub percent: String,
    /// The generation that could be fetched.
    pub available: Option<String>,
    /// How the last check went.
    pub last_check: Option<String>,
    /// What went wrong last.
    pub last_error: Option<String>,
}

/// What a kind of event is called.
pub open spec fn kind_called(kind: EventKind) -> Seq<char> {
    match kind {
        EventKind::Activated => "Activated"@,
        EventKind::FellBack => "FellBack"@,
        EventKind::ProbeFailed => "ProbeFailed"@,
        EventKind::ExtractFailed => "ExtractFailed"@,
    }
}

fn kind_name(kind: EventKind) -> (r: &'static str)
    ensures
        r@ == kind_called(kind),
{
    match kind {
        EventKind::Activated => "Activated",
        EventKind::FellBack => "FellBack",
        EventKind::ProbeFailed => "ProbeFailed",
        EventKind::ExtractFailed => "ExtractFailed",
    }
}

/// A status line about an event.
pub open spec fn event_shown(event: EventView) -> Seq<char> {
    "history: "@ + kind_called(event.what) + " "@ + event.generation + " "@ + (match event.detail {
        Some(detail) => detail,
        None => ""@,
    })
}

fn event_line(event: &Event) -> (r: String)
    ensures
        r@ == event_shown(event@),
{
    let mut r = "history: ".to_owned();
    r.append(kind_name(event.what));
    r.append(" ");
    r.append(event.generation.as_str());
    r.append(" ");
    match &event.detail {
        Some(detail) => r.append(detail.as_str()),
        None => r.append(""),
    }
    r
}

/// The status line about playback.
pub open spec fn playback_shown(backend: BackendView) -> Seq<char> {
    "playback: "@ + backend.status().called() + " plugin '"@ + (match backend.session {
        Some(session) => session.plugin_name,
        None => ""@,
    }) + "' media '"@ + (match backend.session {
        Some(session) => session.media_extension,
        None => ""@,
    }) + "'"@
}

/// The status line about the catalog.
pub open spec fn catalog_shown(catalog: CatalogView) -> Seq<char> {
    "catalog: active "@ + id_or_none(catalog.loaded) + " pending "@ + id_or_none(
        match catalog.pending {
            Some(generation) => Some(generation.id@),
            None => None,
        },
    )
}

/// The status line about the updater.
pub open spec fn updater_shown(updater: UpdaterStatus) -> Seq<char> {
    "updater: "@ + updater.phase@ + " progress "@ + updater.percent@ + "% available "@ + id_or_none(
        match updater.available {
            Some(id) => Some(id@),
            None => None,
        },
    )
}

/// A line of `text` behind `what`, when there is any.
pub open spec fn line_if(what: Seq<char>, text: Option<String>) -> Seq<Seq<char>> {
    match text {
        Some(text) => seq![what + text@],
        None => seq![],
    }
}

/// How many entries of a history of `len` a status shows.
pub open spec fn shown_count(len: nat) -> nat {
    if len < SHOWN_HISTORY {
        len
    } else {
        SHOWN_HISTORY as nat
    }
}

/// The status lines about the newest entries of `history`, newest first.
pub open spec fn history_shown(history: Seq<EventView>) -> Seq<Seq<char>> {
    Seq::new(shown_count(history.len()), |i: int| event_shown(history[history.len() - 1 - i]))
}

/// Everything a status shows, line by line.
pub open spec fn status_shown(
    backend: BackendView,
    catalog: CatalogView,
    updater: UpdaterStatus,
) -> Seq<Seq<char>> {
    seq![playback_shown(backend), catalog_shown(catalog), updater_shown(updater)] + line_if(
        "last check: "@,
        updater.last_check,
    ) + line_if("last error: "@, updater.last_error) + history_shown(catalog.record.history)
}

fn push_line(lines: &mut Vec<String>, line: String)
    ensures
        texts(final(lines)@) == texts(old(lines)@).push(line@),
{
    lines.push(line);
    assert(texts(lines@) == texts(old(lines)@).push(line@));
}

fn push_line_if(lines: &mut Vec<String>, what: &str, text: &Option<String>)
    ensures
        texts(final(lines)@) == texts(old(lines)@) + line_if(what@, *text),
{
    match text {
        Some(text) => {
            let mut line = what.to_owned();
            line.append(text.as_str());
            push_line(lines, line);
        },
        None => {},
    }
    assert(texts(lines@) == texts(old(lines)@) + line_if(what@, *text));
}

/// Catalog, updater, and playback state, line by line.
pub fn status_lines(
    backend: &PlayerBackend,
    catalog: &PluginCatalog,
    updater: &UpdaterStatus,
) -> (r: Vec<String>)
    ensures
        texts(r@) == status_shown(backend@, catalog@, *updater),
{
    let mut r: Vec<String> = Vec::new();

    let mut line = "playback: ".to_owned();
    line.append(backend.status().name());
    line.append(" plugin '");
    line.append(backend.plugin_name());
    line.append("' media '");
    line.append(backend.media_extension());
    line.append("'");
    push_line(&mut r, line);

    let mut line = "catalog: active ".to_owned();
    line.append(say_id(catalog.active_generation()).as_str());
    line.append(" pending ");
    line.append(say_id(catalog.pending_generation()).as_str());
    push_line(&mut r, line);

    let mut line = "updater: ".to_owned();
    line.append(updater.phase.as_str());
    line.append(" progress ");
    line.append(updater.percent.as_str());
    line.append("% available ");
    let available = match &updater.available {
        Some(id) => Some(id.as_str()),
        None => None,
    };
    line.append(say_id(available).as_str());
    push_line(&mut r, line);

    assert(texts(r@) == seq![
        playback_shown(backend@),
        catalog_shown(catalog@),
        updater_shown(*updater),
    ]);
    push_line_if(&mut r, "last check: ", &updater.last_check);
    push_line_if(&mut r, "last error: ", &updater.last_error);

    let history = catalog.history();
    let ghost told = catalog@.record.history;
    let ghost head = texts(r@);
    let count: usize = if history.len() < SHOWN_HISTORY {
        history.len()
    } else {
        SHOWN_HISTORY
    };
    for i in 0..count
        invariant
            count == shown_count(told.len()),
            count <= history@.len(),
            events(history@) == told,
            texts(r@) == head + history_shown(told).take(i as int),
    {
        let at: usize = history.len() - 1 - i;
        assert(told[at as int] == history@[at as int]@);
        let line = event_line(&history[at]);
        assert(line@ == history_shown(told)[i as int]);
        push_line(&mut r, line);
        assert(history_shown(told).take(i + 1) == history_shown(told).take(i as int).push(line@));
    }
    assert(history_shown(told).take(count as int) == history_shown(told));
    r
}

} // verus!
