//! The desktop player: what its commands pick, and what it buffers.

use vstd::prelude::*;

use crate::catalog::{CatalogView, StepView};
use crate::config::Interval;
use crate::desktop::{
    catalog_shown, event_shown, history_shown, id_or_none, kind_called, line_if, obeyed,
    playback_shown, refill, resolved, status_shown, unasked, understood, updater_shown,
    without_finished, Command, CommandView, Input, InputView, Options, OptionsView, Root, RootView,
    UpdaterStatus, BUFFERED_SAMPLES, CHANNELS, MAX_FRAMES, USAGE,
};
use crate::generation::Generation;
use crate::laws::text::a_written_number_is_read_back;
use crate::player::{BackendView, PlaybackStatus};
use crate::record::{EventKind, EventView};
use crate::text::{decimal, number, number_within, texts};
use crate::tree::TreePathView;

verus! {

/// What a command line, a command or a line that was typed is taken for hides
/// nothing of it.
pub proof fn nothing_that_is_asked_for_is_hidden(
    options: Options,
    root: Root,
    command: Command,
    input: Input,
)
    ensures
        options@.root == options.root@,
        options@.interval == options.interval,
        options@.auto_apply == options.auto_apply,
        options@.files == texts(options.files@),
        root matches Root::Home(place) ==> root@ == RootView::Home(place@),
        root matches Root::Given(path) ==> root@ == RootView::Given(path@),
        command matches Command::Play(path) ==> command@ == CommandView::Play(path@),
        command is Stop <==> command@ is Stop,
        command is Status <==> command@ is Status,
        command is Check <==> command@ is Check,
        command is Quit <==> command@ is Quit,
        input matches Input::Send(command) ==> input@ == InputView::Send(command@),
        input is Leave <==> input@ is Leave,
        input is Skip <==> input@ is Skip,
        input matches Input::Complain(why) ==> input@ == InputView::Complain(why@),
{
}

/// Before the command line says anything, the root is the one below the home,
/// the channel is asked every half minute, updates download, and there is
/// nothing to pick from.
pub proof fn the_command_line_may_be_empty(root: TreePathView)
    ensures
        unasked(root).root == RootView::Home(root),
        unasked(root).interval.secs == 30,
        unasked(root).interval.nanos == 0,
        unasked(root).auto_apply,
        unasked(root).files.len() == 0,
        obeyed(unasked(root), Seq::empty()) == Ok::<OptionsView, Seq<char>>(unasked(root)),
{
}

/// A command line is obeyed from left to right: once its beginning was obeyed,
/// the rest is, on top of that.
pub proof fn a_command_line_is_obeyed_in_order(
    options: OptionsView,
    first: Seq<Seq<char>>,
    rest: Seq<Seq<char>>,
)
    requires
        obeyed(options, first) is Ok,
    ensures
        obeyed(options, first + rest) == obeyed(obeyed(options, first)->Ok_0, rest),
    decreases first.len(),
{
    let all = first + rest;
    if first.len() == 0 {
        assert(all == rest);
    } else {
        assert(all[0] == first[0]);
        if first.len() >= 2 {
            assert(all[1] == first[1]);
            assert(all.skip(2) == first.skip(2) + rest);
        }
        assert(all.skip(1) == first.skip(1) + rest);
        if first[0] == "--root"@ {
            a_command_line_is_obeyed_in_order(
                OptionsView { root: RootView::Given(first[1]), ..options },
                first.skip(2),
                rest,
            );
        } else if first[0] == "--interval"@ {
            let secs = number_within(first[1], u64::MAX as nat)->0 as u64;
            a_command_line_is_obeyed_in_order(
                OptionsView { interval: Interval { secs, nanos: 0 }, ..options },
                first.skip(2),
                rest,
            );
        } else if first[0] == "--no-auto-apply"@ {
            a_command_line_is_obeyed_in_order(
                OptionsView { auto_apply: false, ..options },
                first.skip(1),
                rest,
            );
        } else {
            a_command_line_is_obeyed_in_order(
                OptionsView { files: options.files.push(first[0]), ..options },
                first.skip(1),
                rest,
            );
        }
    }
}

/// Whether `argument` is one that the command line gives a meaning to.
pub open spec fn is_flag(argument: Seq<char>) -> bool {
    ||| argument == "--root"@
    ||| argument == "--interval"@
    ||| argument == "--no-auto-apply"@
    ||| argument == "--help"@
    ||| argument == "-h"@
}

proof fn flags_differ()
    ensures
        "--root"@ != "--interval"@,
        "--root"@ != "--no-auto-apply"@,
        "--root"@ != "--help"@,
        "--root"@ != "-h"@,
        "--interval"@ != "--no-auto-apply"@,
        "--interval"@ != "--help"@,
        "--interval"@ != "-h"@,
        "--no-auto-apply"@ != "--help"@,
        "--no-auto-apply"@ != "-h"@,
{
    reveal_strlit("--root");
    reveal_strlit("--interval");
    reveal_strlit("--no-auto-apply");
    reveal_strlit("--help");
    reveal_strlit("-h");
    assert("--root"@.len() == 6 && "--help"@.len() == 6);
    assert("--root"@[2] == 'r');
    assert("--help"@[2] == 'h');
    assert("--interval"@.len() == 10);
    assert("--no-auto-apply"@.len() == 15);
    assert("-h"@.len() == 2);
}

/// Every argument does one thing: a root and an interval are taken from the
/// argument behind them, updates can be kept from downloading, and anything
/// without a meaning is a file.
pub proof fn every_argument_does_one_thing(options: OptionsView, argument: Seq<char>)
    ensures
        obeyed(options, seq!["--root"@, argument]) == Ok::<OptionsView, Seq<char>>(
            OptionsView { root: RootView::Given(argument), ..options },
        ),
        number(argument) matches Some(n) ==> n <= u64::MAX ==> obeyed(
            options,
            seq!["--interval"@, argument],
        ) == Ok::<OptionsView, Seq<char>>(
            OptionsView { interval: Interval { secs: n as u64, nanos: 0 }, ..options },
        ),
        obeyed(options, seq!["--no-auto-apply"@]) == Ok::<OptionsView, Seq<char>>(
            OptionsView { auto_apply: false, ..options },
        ),
        !is_flag(argument) ==> obeyed(options, seq![argument]) == Ok::<OptionsView, Seq<char>>(
            OptionsView { files: options.files.push(argument), ..options },
        ),
{
    flags_differ();
    reveal_with_fuel(obeyed, 2);
    assert(seq!["--root"@, argument].skip(2).len() == 0);
    assert(seq!["--interval"@, argument].skip(2).len() == 0);
    assert(seq!["--no-auto-apply"@].skip(1).len() == 0);
    assert(seq![argument].skip(1).len() == 0);
}

/// A command line that cannot be followed is refused with what is wrong with
/// it, whatever comes behind: a root or an interval is missing, an interval is
/// no number of seconds, or help was asked for.
pub proof fn a_bad_command_line_is_refused(
    options: OptionsView,
    argument: Seq<char>,
    rest: Seq<Seq<char>>,
)
    ensures
        obeyed(options, seq!["--root"@]) == Err::<OptionsView, Seq<char>>("--root needs a path"@),
        obeyed(options, seq!["--interval"@]) == Err::<OptionsView, Seq<char>>(
            "--interval needs whole seconds"@,
        ),
        (number(argument) matches Some(n) ==> n > u64::MAX) ==> obeyed(
            options,
            seq!["--interval"@, argument] + rest,
        ) == Err::<OptionsView, Seq<char>>("--interval needs whole seconds"@),
        obeyed(options, seq!["--help"@] + rest) == Err::<OptionsView, Seq<char>>(USAGE@),
        obeyed(options, seq!["-h"@] + rest) == Err::<OptionsView, Seq<char>>(USAGE@),
        USAGE@
            == "usage: retrovert-player-desktop [--root DIR] [--interval SECS] [--no-auto-apply] [FILES..]"@,
{
    flags_differ();
    let interval = seq!["--interval"@, argument] + rest;
    assert(interval[0] == "--interval"@);
    assert(interval[1] == argument);
    assert((seq!["--help"@] + rest)[0] == "--help"@);
    assert((seq!["-h"@] + rest)[0] == "-h"@);
}

proof fn commands_differ()
    ensures
        "play"@ != "stop"@,
        "play"@ != "status"@,
        "play"@ != "check"@,
        "play"@ != "quit"@,
        "play"@ != "exit"@,
        "stop"@ != "status"@,
        "stop"@ != "check"@,
        "stop"@ != "quit"@,
        "stop"@ != "exit"@,
        "status"@ != "check"@,
        "status"@ != "quit"@,
        "status"@ != "exit"@,
        "check"@ != "quit"@,
        "check"@ != "exit"@,
{
    reveal_strlit("play");
    reveal_strlit("stop");
    reveal_strlit("status");
    reveal_strlit("check");
    reveal_strlit("quit");
    reveal_strlit("exit");
    assert("play"@[0] == 'p');
    assert("stop"@[0] == 's' && "stop"@.len() == 4);
    assert("status"@[0] == 's' && "status"@.len() == 6);
    assert("check"@[0] == 'c');
    assert("quit"@[0] == 'q');
    assert("exit"@[0] == 'e');
}

/// `play` and a word play something, with any files to pick from or none: the
/// file that the word is the index of, and else the path that it is.
pub proof fn play_and_a_word_play(
    files: Seq<Seq<char>>,
    what: Seq<char>,
    more: Seq<Seq<char>>,
)
    ensures
        (number(what) matches Some(index) && index <= usize::MAX && index < files.len())
            ==> understood(seq!["play"@, what] + more, files) == InputView::Send(
            CommandView::Play(files[number(what)->0 as int]),
        ),
        (number(what) matches Some(index) ==> index > usize::MAX || index >= files.len())
            ==> understood(seq!["play"@, what] + more, files) == InputView::Send(
            CommandView::Play(what),
        ),
{
    let said = seq!["play"@, what] + more;
    assert(said[0] == "play"@);
    assert(said[1] == what);
}

/// The other commands need no word behind them and look at none: an empty line
/// is nothing, and what is no command is complained about, `play` without a
/// word too.
pub proof fn every_command_is_understood(
    files: Seq<Seq<char>>,
    first: Seq<char>,
    more: Seq<Seq<char>>,
)
    ensures
        understood(Seq::empty(), files) is Skip,
        understood(seq!["stop"@] + more, files) == InputView::Send(CommandView::Stop),
        understood(seq!["status"@] + more, files) == InputView::Send(CommandView::Status),
        understood(seq!["check"@] + more, files) == InputView::Send(CommandView::Check),
        understood(seq!["quit"@] + more, files) is Leave,
        understood(seq!["exit"@] + more, files) is Leave,
        understood(seq!["play"@], files) == InputView::Complain("unknown command: "@ + "play"@),
        first != "play"@ && first != "stop"@ && first != "status"@ && first != "check"@ && first
            != "quit"@ && first != "exit"@ ==> understood(seq![first] + more, files)
            == InputView::Complain("unknown command: "@ + first),
{
    commands_differ();
    assert((seq!["stop"@] + more)[0] == "stop"@);
    assert((seq!["status"@] + more)[0] == "status"@);
    assert((seq!["check"@] + more)[0] == "check"@);
    assert((seq!["quit"@] + more)[0] == "quit"@);
    assert((seq!["exit"@] + more)[0] == "exit"@);
    assert((seq![first] + more)[0] == first);
}

/// A bare index picks from the files of the command line.
pub proof fn an_index_picks_its_file(files: Seq<Seq<char>>, index: nat)
    requires
        index < files.len(),
        files.len() <= usize::MAX,
    ensures
        resolved(files, decimal(index)) == files[index as int],
        understood(seq!["play"@, decimal(index)], files) == InputView::Send(
            CommandView::Play(files[index as int]),
        ),
{
    a_written_number_is_read_back(index);
}

/// Anything else is a path, taken as it stands.
pub proof fn anything_else_is_a_path(files: Seq<Seq<char>>, what: Seq<char>)
    requires
        number_within(what, usize::MAX as nat) matches Some(index) ==> index >= files.len(),
    ensures
        resolved(files, what) == what,
{
}

/// The worker decodes as much as fits ahead of the device, at most a player's
/// budget at once, and never more.
pub proof fn topping_up_never_overfills(buffered: nat)
    ensures
        BUFFERED_SAMPLES == 19_200,
        CHANNELS == 2,
        MAX_FRAMES == 4_096,
        refill(buffered) matches Some(frames) ==> frames <= 4_096 && buffered + frames * 2
            <= 19_200,
        refill(buffered) matches Some(frames) ==> frames == 4_096 || buffered + (frames + 1) * 2
            > 19_200,
        refill(buffered) is None <==> buffered >= 19_200,
{
}

/// A finished session is dropped, and no other is.
pub proof fn only_a_finished_session_is_dropped(backend: BackendView)
    ensures
        backend.status() == PlaybackStatus::Finished ==> without_finished(backend)
            == backend.closed(),
        backend.status() != PlaybackStatus::Finished ==> without_finished(backend) == backend,
{
}

/// A generation that is not there is called none, and one that is by its name.
pub proof fn a_generation_goes_by_its_name(id: Seq<char>)
    ensures
        id_or_none(Some(id)) == id,
        id_or_none(None) == "none"@,
{
}

/// A status tells of playback, the catalog and the updater, then how the last
/// check went and what went wrong last, if anything, then of the five newest
/// events, the newest first.
pub proof fn a_status_tells_of_everything(
    backend: BackendView,
    catalog: CatalogView,
    updater: UpdaterStatus,
    i: int,
)
    ensures
        ({
            let lines = status_shown(backend, catalog, updater);
            let history = catalog.record.history;
            let checked: int = if updater.last_check is Some {
                1
            } else {
                0
            };
            let wrong: int = if updater.last_error is Some {
                1
            } else {
                0
            };
            let told: int = if history.len() < 5 {
                history.len() as int
            } else {
                5
            };
            &&& lines.len() == 3 + checked + wrong + told
            &&& lines[0] == playback_shown(backend)
            &&& lines[1] == catalog_shown(catalog)
            &&& lines[2] == updater_shown(updater)
            &&& updater.last_check matches Some(check) ==> lines[3] == "last check: "@ + check@
            &&& updater.last_error matches Some(error) ==> lines[3 + checked] == "last error: "@
                + error@
            &&& 0 <= i < told ==> lines[3 + checked + wrong + i] == event_shown(
                history[history.len() - 1 - i],
            )
        }),
{
    let head = seq![playback_shown(backend), catalog_shown(catalog), updater_shown(updater)];
    let check = line_if("last check: "@, updater.last_check);
    let error = line_if("last error: "@, updater.last_error);
    let history = history_shown(catalog.record.history);
    assert(status_shown(backend, catalog, updater) == head + check + error + history);
}

/// What each line of a status says.
pub proof fn what_the_lines_of_a_status_say(
    backend: BackendView,
    catalog: CatalogView,
    updater: UpdaterStatus,
    event: EventView,
)
    ensures
        backend.session matches Some(session) ==> playback_shown(backend) == "playback: "@
            + session.status.called() + " plugin '"@ + session.plugin_name + "' media '"@
            + session.media_extension + "'"@,
        backend.session is None ==> playback_shown(backend) == "playback: "@
            + PlaybackStatus::Idle.called() + " plugin '"@ + ""@ + "' media '"@ + ""@ + "'"@,
        catalog_shown(catalog) == "catalog: active "@ + (match catalog.loaded {
            Some(id) => id,
            None => "none"@,
        }) + " pending "@ + (match catalog.pending {
            Some(generation) => generation.id@,
            None => "none"@,
        }),
        updater_shown(updater) == "updater: "@ + updater.phase@ + " progress "@ + updater.percent@
            + "% available "@ + (match updater.available {
            Some(id) => id@,
            None => "none"@,
        }),
        event_shown(event) == "history: "@ + (match event.what {
            EventKind::Activated => "Activated"@,
            EventKind::FellBack => "FellBack"@,
            EventKind::ProbeFailed => "ProbeFailed"@,
            EventKind::ExtractFailed => "ExtractFailed"@,
        }) + " "@ + event.generation + " "@ + (match event.detail {
            Some(detail) => detail,
            None => ""@,
        }),
        kind_called(event.what) == (match event.what {
            EventKind::Activated => "Activated"@,
            EventKind::FellBack => "FellBack"@,
            EventKind::ProbeFailed => "ProbeFailed"@,
            EventKind::ExtractFailed => "ExtractFailed"@,
        }),
{
}

/// A generation that waited for a song is tried in the very turn in which the
/// song is found finished, and not before.
pub proof fn a_finished_song_makes_room(
    catalog: CatalogView,
    backend: BackendView,
    found: Seq<Generation>,
    generation: Generation,
)
    requires
        catalog.booted,
        catalog.pending == Some(generation),
        catalog.loaded != Some(generation.id@),
        backend.session is Some,
    ensures
        catalog.tick(found, None, without_finished(backend).session is Some).1 == (if backend.status()
            == PlaybackStatus::Finished {
            StepView::Extract { generation, instead_of: None }
        } else {
            StepView::Idle
        }),
{
}

} // verus!
