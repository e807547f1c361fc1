//! Playback: the decoder set, the extension index over it, and at most one
//! session.
//!
//! Decoding itself is the host's, which owns the plugins and the prepared
//! session; what is to be decoded, and what became of it, is decided here.

use vstd::prelude::*;
use vstd::std_specs::convert::FromSpecImpl;

use crate::extensions::{extension_set, supported_extensions, LoadedPlugin, PluginKind};
use crate::text::{chars_of, lowercase, names, text_of, texts, to_lowercase};

verus! {

/// How much of a media file the plugins probe.
pub const MEDIA_PROBE_BYTES: usize = 16_384;

/// Playback state observed by the host adapter.
#[derive(Clone, Copy, Debug, PartialEq, Eq, Structural)]
pub enum PlaybackStatus {
    Idle,
    Loading,
    Playing,
    Paused,
    Error,
    Finished,
}

impl Default for PlaybackStatus {
    fn default() -> (r: Self)
        ensures
            r == PlaybackStatus::Idle,
    {
        PlaybackStatus::Idle
    }
}

impl PlaybackStatus {
    /// What the status is called.
    pub open spec fn called(self) -> Seq<char> {
        match self {
            PlaybackStatus::Idle => "Idle"@,
            PlaybackStatus::Loading => "Loading"@,
            PlaybackStatus::Playing => "Playing"@,
            PlaybackStatus::Paused => "Paused"@,
            PlaybackStatus::Error => "Error"@,
            PlaybackStatus::Finished => "Finished"@,
        }
    }

    /// What the status is called.
    pub fn name(self) -> (r: &'static str)
        ensures
            r@ == self.called(),
    {
        match self {
            PlaybackStatus::Idle => "Idle",
            PlaybackStatus::Loading => "Loading",
            PlaybackStatus::Playing => "Playing",
            PlaybackStatus::Paused => "Paused",
            PlaybackStatus::Error => "Error",
            PlaybackStatus::Finished => "Finished",
        }
    }
}

/// Failures while selecting, opening, rendering, or capturing a session, each
/// with what lies behind it.
#[derive(Debug)]
#[non_exhaustive]
pub enum BackendError {
    Media(String),
    NoPlugin,
    Session(String),
    Visualization(String),
    Runtime(String),
}

impl BackendError {
    /// What the error says.
    pub open spec fn says(self) -> Seq<char> {
        match self {
            BackendError::Media(_) => "could not read media"@,
            BackendError::NoPlugin => "no playback plugin accepted the media"@,
            BackendError::Session(_) => "decode session failed"@,
            BackendError::Visualization(_) => "visualization capture failed"@,
            BackendError::Runtime(_) => "decode runtime failed"@,
        }
    }

    /// What the error says.
    pub fn message(&self) -> (r: &'static str)
        ensures
            r@ == self.says(),
    {
        match self {
            BackendError::Media(_) => "could not read media",
            BackendError::NoPlugin => "no playback plugin accepted the media",
            BackendError::Session(_) => "decode session failed",
            BackendError::Visualization(_) => "visualization capture failed",
            BackendError::Runtime(_) => "decode runtime failed",
        }
    }
}

/// What went wrong with a prepared session.
#[derive(Debug)]
pub enum SessionFailure {
    /// The decoder's session failed.
    Session(String),
    /// The visualization failed.
    Visualization(String),
    /// The runtime around both failed in some other way.
    Other(String),
}

impl From<SessionFailure> for BackendError {
    fn from(failure: SessionFailure) -> (r: Self) {
        match failure {
            SessionFailure::Session(cause) => BackendError::Session(cause),
            SessionFailure::Visualization(cause) => BackendError::Visualization(cause),
            SessionFailure::Other(cause) => BackendError::Runtime(cause),
        }
    }
}

impl FromSpecImpl<SessionFailure> for BackendError {
    open spec fn obeys_from_spec() -> bool {
        true
    }

    open spec fn from_spec(failure: SessionFailure) -> BackendError {
        match failure {
            SessionFailure::Session(cause) => BackendError::Session(cause),
            SessionFailure::Visualization(cause) => BackendError::Visualization(cause),
            SessionFailure::Other(cause) => BackendError::Runtime(cause),
        }
    }
}

/// A fixed sample format.
#[derive(Clone, Copy, Debug, PartialEq, Eq, Structural)]
pub struct StreamFormat {
    pub sample_rate: u32,
    pub channels: u32,
}

/// What loading a set of plugins came to.
#[derive(Debug)]
pub struct LoadReport {
    /// The plugins that loaded.
    pub plugins: Vec<LoadedPlugin>,
    /// The paths rejected while loading, and why.
    pub errors: Vec<String>,
}

/// The outcome of one decoder-set swap.
#[derive(Debug)]
pub struct SwapReport {
    /// How many playback plugins the replacement set holds.
    pub loaded: usize,
    /// The paths rejected while loading the replacement set.
    pub errors: Vec<String>,
}

/// How many of `plugins` decode media.
pub open spec fn playback_count(plugins: Seq<LoadedPlugin>) -> nat {
    plugins.filter(|plugin: LoadedPlugin| plugin.kind is Playback).len()
}

fn count_playback(plugins: &Vec<LoadedPlugin>) -> (r: usize)
    ensures
        r == playback_count(plugins@),
{
    let mut r: usize = 0;
    let ghost decodes = |plugin: LoadedPlugin| plugin.kind is Playback;
    assert(plugins@.take(0).filter(decodes).len() == 0);
    for i in 0..plugins.len()
        invariant
            decodes == (|plugin: LoadedPlugin| plugin.kind is Playback),
            r == plugins@.take(i as int).filter(decodes).len(),
            r <= i,
    {
        proof {
            assert(plugins@.take(i + 1) == plugins@.take(i as int).push(plugins@[i as int]));
            plugins@.take(i as int).lemma_filter_push(plugins@[i as int], decodes);
        }
        if let PluginKind::Playback = plugins[i].kind {
            r += 1;
        }
    }
    assert(plugins@.take(plugins@.len() as int) == plugins@);
    r
}

/// A session that the host has opened.
#[derive(Debug)]
pub struct Opened {
    /// The name of the plugin that decodes it.
    pub plugin_name: String,
    /// The extension of the media's file name, when it has one that is text.
    pub extension: Option<String>,
}

/// What the host is to open a session with.
#[derive(Clone, Copy, Debug, PartialEq, Eq, Structural)]
pub struct OpenRequest {
    pub subsong: u32,
    pub target: StreamFormat,
    pub max_frames: u32,
}

#[derive(Debug)]
struct Session {
    plugin_name: String,
    media_extension: String,
    status: PlaybackStatus,
    output_frame: u64,
}

/// A mounted session.
#[verifier::ext_equal]
pub struct SessionView {
    pub plugin_name: Seq<char>,
    pub media_extension: Seq<char>,
    pub status: PlaybackStatus,
    pub output_frame: u64,
}

/// A player: its decoder set, the extensions it is indexed by, its budgets
/// and its session.
#[verifier::ext_equal]
pub struct BackendView {
    pub plugins: Seq<LoadedPlugin>,
    pub extensions: Set<Seq<char>>,
    pub target: StreamFormat,
    pub max_frames: u32,
    pub session: Option<SessionView>,
}

/// Decoder catalog and optional prepared session owned by one host thread.
#[derive(Debug)]
pub struct PlayerBackend {
    plugins: Vec<LoadedPlugin>,
    extensions: Vec<String>,
    target: StreamFormat,
    max_frames: u32,
    session: Option<Session>,
}

impl BackendView {
    /// A player with the set `plugins` and no session.
    pub open spec fn holding(self, plugins: Seq<LoadedPlugin>) -> BackendView {
        BackendView { plugins, extensions: extension_set(plugins), session: None, ..self }
    }

    /// The player without its session.
    pub open spec fn closed(self) -> BackendView {
        BackendView { session: None, ..self }
    }

    /// The player with its session in another state.
    pub open spec fn in_state(self, status: PlaybackStatus, output_frame: u64) -> BackendView {
        BackendView {
            session: match self.session {
                Some(session) => Some(SessionView { status, output_frame, ..session }),
                None => None,
            },
            ..self
        }
    }

    /// The player with a session that plays from its start.
    pub open spec fn mounted(
        self,
        plugin_name: Seq<char>,
        extension: Option<Seq<char>>,
    ) -> BackendView {
        BackendView {
            session: Some(
                SessionView {
                    plugin_name,
                    media_extension: match extension {
                        Some(extension) => lowercase(extension),
                        None => Seq::empty(),
                    },
                    status: PlaybackStatus::Playing,
                    output_frame: 0,
                },
            ),
            ..self
        }
    }

    /// The player once its session was paused or went on, and whether it
    /// plays now; nothing when there is no session that does either.
    pub open spec fn toggled(self) -> (BackendView, Option<bool>) {
        match self.session {
            Some(session) => match session.status {
                PlaybackStatus::Playing => (
                    self.in_state(PlaybackStatus::Paused, session.output_frame),
                    Some(false),
                ),
                PlaybackStatus::Paused => (
                    self.in_state(PlaybackStatus::Playing, session.output_frame),
                    Some(true),
                ),
                _ => (self, None),
            },
            None => (self, None),
        }
    }

    /// How many frames to decode when at most `frames` are wanted.
    pub open spec fn to_render(self, frames: u32) -> Option<u32> {
        if self.status() == PlaybackStatus::Playing && frames > 0 {
            Some(
                if frames < self.max_frames {
                    frames
                } else {
                    self.max_frames
                },
            )
        } else {
            None
        }
    }

    /// The player once `produced` frames more were decoded.
    pub open spec fn rendered(self, produced: u64, finished: bool) -> BackendView {
        match self.session {
            Some(session) => self.in_state(
                if finished {
                    PlaybackStatus::Finished
                } else {
                    session.status
                },
                if session.output_frame + produced > u64::MAX {
                    u64::MAX
                } else {
                    (session.output_frame + produced) as u64
                },
            ),
            None => self,
        }
    }

    /// The state of the session, idle when there is none.
    pub open spec fn status(self) -> PlaybackStatus {
        match self.session {
            Some(session) => session.status,
            None => PlaybackStatus::Idle,
        }
    }
}

/// `extension` without the dots it starts with.
pub open spec fn undotted(extension: Seq<char>) -> Seq<char>
    decreases extension.len(),
{
    if extension.len() > 0 && extension[0] == '.' {
        undotted(extension.drop_first())
    } else {
        extension
    }
}

/// `extension` as the index spells it.
pub open spec fn normal(extension: Seq<char>) -> Seq<char> {
    lowercase(undotted(extension))
}

fn normalize(extension: &str) -> (r: String)
    ensures
        r@ == normal(extension@),
{
    let chars = chars_of(extension);
    let mut from: usize = 0;
    assert(extension@.skip(0) == extension@);
    while from < chars.len() && chars[from] == '.'
        invariant
            chars@ == extension@,
            from <= chars.len(),
            undotted(extension@) == undotted(extension@.skip(from as int)),
        decreases chars.len() - from,
    {
        assert(extension@.skip(from as int).drop_first() == extension@.skip(from + 1));
        from += 1;
    }
    assert(undotted(extension@) == extension@.skip(from as int));
    let mut rest: Vec<char> = Vec::new();
    for i in from..chars.len()
        invariant
            chars@ == extension@,
            from <= chars.len(),
            rest@ == extension@.subrange(from as int, i as int),
    {
        rest.push(chars[i]);
    }
    assert(rest@ == extension@.skip(from as int));
    to_lowercase(text_of(&rest).as_str())
}

/// The plugin that took the media, as `chosen` tells: the media was read and
/// a plugin took it or none did, or the media could not be read.
pub fn select<T>(chosen: Result<Option<T>, String>) -> (r: Result<T, BackendError>)
    ensures
        r == (match chosen {
            Ok(Some(plugin)) => Ok::<T, BackendError>(plugin),
            Ok(None) => Err(BackendError::NoPlugin),
            Err(cause) => Err(BackendError::Media(cause)),
        }),
{
    match chosen {
        Ok(Some(plugin)) => Ok(plugin),
        Ok(None) => Err(BackendError::NoPlugin),
        Err(cause) => Err(BackendError::Media(cause)),
    }
}

impl View for PlayerBackend {
    type V = BackendView;

    closed spec fn view(&self) -> BackendView {
        BackendView {
            plugins: self.plugins@,
            extensions: texts(self.extensions@).to_set(),
            target: self.target,
            max_frames: self.max_frames,
            session: match self.session {
                Some(session) => Some(
                    SessionView {
                        plugin_name: session.plugin_name@,
                        media_extension: session.media_extension@,
                        status: session.status,
                        output_frame: session.output_frame,
                    },
                ),
                None => None,
            },
        }
    }
}

impl PlayerBackend {
    /// A player over the plugins that loaded, with fixed render budgets and
    /// no session.
    pub fn new(report: LoadReport, target: StreamFormat, max_frames: u32) -> (r: Self)
        ensures
            r@ == (BackendView {
                plugins: report.plugins@,
                extensions: extension_set(report.plugins@),
                target,
                max_frames,
                session: None,
            }),
    {
        let extensions = supported_extensions(&report.plugins);
        PlayerBackend { plugins: report.plugins, extensions, target, max_frames, session: None }
    }

    /// Drop the session and the decoder set, and the index with it.
    ///
    /// A swap starts here, before anything of the replacement loads, so at
    /// most one set is ever resident.
    pub fn unload(&mut self)
        ensures
            final(self)@ == old(self)@.holding(Seq::empty()),
    {
        self.session = None;
        self.extensions = Vec::new();
        self.plugins = Vec::new();
        assert(self@.extensions =~= extension_set(self@.plugins));
    }

    /// Replace the decoder set and the extension index together.
    ///
    /// The session goes with the old set. A rejected path rolls nothing back,
    /// the old set is already gone, so the caller judges the report and swaps
    /// back to the previous set if it refuses the new one.
    pub fn swap_plugins(&mut self, report: LoadReport) -> (r: SwapReport)
        ensures
            final(self)@ == old(self)@.holding(report.plugins@),
            r.loaded == playback_count(report.plugins@),
            r.errors == report.errors,
    {
        let loaded: usize = count_playback(&report.plugins);
        self.session = None;
        self.extensions = supported_extensions(&report.plugins);
        self.plugins = report.plugins;
        SwapReport { loaded, errors: report.errors }
    }

    /// Whether a media session is mounted.
    pub fn is_live(&self) -> (r: bool)
        ensures
            r == (self@.session is Some),
    {
        self.session.is_some()
    }

    /// What a session for `subsong` is to be opened with.
    pub fn open_request(&self, subsong: u16) -> (r: OpenRequest)
        ensures
            r == (OpenRequest {
                subsong: subsong as u32,
                target: self@.target,
                max_frames: self@.max_frames,
            }),
    {
        OpenRequest { subsong: subsong as u32, target: self.target, max_frames: self.max_frames }
    }

    /// Replace the current session with the one that was opened, which plays
    /// from its start. Without one there is no session afterwards.
    pub fn mount(&mut self, opened: Result<Opened, BackendError>) -> (r: Result<(), BackendError>)
        ensures
            match opened {
                Ok(opened) => r == Ok::<(), BackendError>(()) && final(self)@ == old(
                    self,
                )@.mounted(
                    opened.plugin_name@,
                    match opened.extension {
                        Some(extension) => Some(extension@),
                        None => None,
                    },
                ),
                Err(error) => r == Err::<(), BackendError>(error) && final(self)@ == old(
                    self,
                )@.closed(),
            },
    {
        self.session = None;
        match opened {
            Ok(opened) => {
                let media_extension = match opened.extension {
                    Some(extension) => to_lowercase(extension.as_str()),
                    None => String::new(),
                };
                self.session =
                Some(
                    Session {
                        plugin_name: opened.plugin_name,
                        media_extension,
                        status: PlaybackStatus::Playing,
                        output_frame: 0,
                    },
                );
                Ok(())
            },
            Err(error) => Err(error),
        }
    }

    /// Drop the current session.
    pub fn close(&mut self)
        ensures
            final(self)@ == old(self)@.closed(),
    {
        self.session = None;
    }

    /// Toggle a live session and report whether it is now playing.
    pub fn toggle_pause(&mut self) -> (r: Option<bool>)
        ensures
            (final(self)@, r) == old(self)@.toggled(),
    {
        match &mut self.session {
            Some(session) => {
                match session.status {
                    PlaybackStatus::Playing => {
                        session.status = PlaybackStatus::Paused;
                        Some(false)
                    },
                    PlaybackStatus::Paused => {
                        session.status = PlaybackStatus::Playing;
                        Some(true)
                    },
                    _ => None,
                }
            },
            None => None,
        }
    }

    /// Check a normalized or dot-prefixed media extension.
    pub fn can_handle_extension(&self, extension: &str) -> (r: bool)
        ensures
            r == self@.extensions.contains(normal(extension@)),
    {
        let normal = normalize(extension);
        names(&self.extensions, &normal)
    }

    /// How many frames to decode when at most `frames` are wanted; nothing is
    /// to be decoded without a playing session, or when no frame is wanted.
    pub fn render(&self, frames: u32) -> (r: Option<u32>)
        ensures
            r == self@.to_render(frames),
    {
        match &self.session {
            Some(session) => {
                if session.status != PlaybackStatus::Playing || frames == 0 {
                    None
                } else if frames < self.max_frames {
                    Some(frames)
                } else {
                    Some(self.max_frames)
                }
            },
            None => None,
        }
    }

    /// Take in that `produced` frames were decoded, and whether the media
    /// ended with them.
    pub fn rendered(&mut self, produced: u64, finished: bool)
        ensures
            final(self)@ == old(self)@.rendered(produced, finished),
    {
        match &mut self.session {
            Some(session) => {
                session.output_frame = session.output_frame.saturating_add(produced);
                if finished {
                    session.status = PlaybackStatus::Finished;
                }
            },
            None => {},
        }
    }

    /// The output frame to capture the visualization at; there is nothing to
    /// capture without a session.
    pub fn capture(&self) -> (r: Option<u64>)
        ensures
            r == (match self@.session {
                Some(session) => Some(session.output_frame),
                None => None,
            }),
    {
        match &self.session {
            Some(session) => Some(session.output_frame),
            None => None,
        }
    }

    /// The current session status.
    pub fn status(&self) -> (r: PlaybackStatus)
        ensures
            r == self@.status(),
    {
        match &self.session {
            Some(session) => session.status,
            None => PlaybackStatus::Idle,
        }
    }

    /// The selected decoder name, or an empty string when idle.
    pub fn plugin_name(&self) -> (r: &str)
        ensures
            r@ == (match self@.session {
                Some(session) => session.plugin_name,
                None => ""@,
            }),
    {
        match &self.session {
            Some(session) => session.plugin_name.as_str(),
            None => "",
        }
    }

    /// The mounted media extension, or an empty string when idle.
    pub fn media_extension(&self) -> (r: &str)
        ensures
            r@ == (match self@.session {
                Some(session) => session.media_extension,
                None => ""@,
            }),
    {
        match &self.session {
            Some(session) => session.media_extension.as_str(),
            None => "",
        }
    }
}

} // verus!
