//! The catalog's persisted activation record.
//!
//! One file naming the active generation, the one before it, and what
//! recently happened (activated, fell back, probe failed), so a boot can
//! re-probe what was running and diagnostics can read history without an
//! event channel. Writing it is best-effort: a record that cannot persist
//! costs the next boot its memory, never this session its playback.

use vstd::prelude::*;
use vstd::string::*;

use crate::text::copy_if;
use crate::tree::{TreePath, TreePathView};

verus! {

/// The record schema this build reads and writes.
pub const SCHEMA: u32 = 1;

/// How much history the record keeps, newest last.
pub const HISTORY_CAP: usize = 64;

/// What one activation attempt came to.
#[derive(Debug, Clone, Copy, PartialEq, Eq, Structural)]
pub enum EventKind {
    /// The generation went live.
    Activated,
    /// The generation was refused and the previous one was reloaded.
    FellBack,
    /// The generation was refused and nothing could be reloaded over it.
    ProbeFailed,
    /// The generation's archives would not extract into a loadable tree.
    ExtractFailed,
}

/// One entry in the activation history.
#[derive(Debug)]
pub struct Event {
    /// What happened.
    pub what: EventKind,
    /// The generation it happened to.
    pub generation: String,
    /// Why, when there is more to say than the kind.
    pub detail: Option<String>,
    /// When, as Unix milliseconds.
    pub at_unix_ms: i64,
}

/// An [`Event`] with its text as characters.
#[verifier::ext_equal]
pub struct EventView {
    pub what: EventKind,
    pub generation: Seq<char>,
    pub detail: Option<Seq<char>>,
    pub at_unix_ms: i64,
}

/// The text of an optional string.
pub open spec fn text_if(text: Option<String>) -> Option<Seq<char>> {
    match text {
        Some(text) => Some(text@),
        None => None,
    }
}

impl View for Event {
    type V = EventView;

    open spec fn view(&self) -> EventView {
        EventView {
            what: self.what,
            generation: self.generation@,
            detail: text_if(self.detail),
            at_unix_ms: self.at_unix_ms,
        }
    }
}

impl Clone for Event {
    fn clone(&self) -> (r: Self)
        ensures
            r@ == self@,
    {
        Event {
            what: self.what,
            generation: self.generation.clone(),
            detail: copy_if(&self.detail),
            at_unix_ms: self.at_unix_ms,
        }
    }
}

/// The record as it is stored.
#[derive(Debug)]
pub struct RecordFile {
    /// The schema it was written under.
    pub schema: u32,
    /// The generation recorded as active.
    pub active: Option<String>,
    /// The generation active before the current one.
    pub previous: Option<String>,
    /// What happened, oldest first.
    pub history: Vec<Event>,
}

/// A [`RecordFile`] with its text as characters.
#[verifier::ext_equal]
pub struct RecordView {
    pub schema: u32,
    pub active: Option<Seq<char>>,
    pub previous: Option<Seq<char>>,
    pub history: Seq<EventView>,
}

/// What happened, entry by entry.
pub open spec fn events(history: Seq<Event>) -> Seq<EventView> {
    history.map_values(|event: Event| event@)
}

impl View for RecordFile {
    type V = RecordView;

    open spec fn view(&self) -> RecordView {
        RecordView {
            schema: self.schema,
            active: text_if(self.active),
            previous: text_if(self.previous),
            history: events(self.history@),
        }
    }
}

impl Clone for RecordFile {
    fn clone(&self) -> (r: Self)
        ensures
            r@ == self@,
    {
        let mut history: Vec<Event> = Vec::new();
        for i in 0..self.history.len()
            invariant
                events(history@) == events(self.history@).take(i as int),
        {
            let ghost was = history@;
            let event = self.history[i].clone();
            history.push(event);
            assert(events(history@) == events(was).push(event@));
            assert(events(self.history@)[i as int] == event@);
        }
        RecordFile {
            schema: self.schema,
            active: copy_if(&self.active),
            previous: copy_if(&self.previous),
            history,
        }
    }
}

/// The record of a catalog that never activated anything.
pub open spec fn blank() -> RecordView {
    RecordView { schema: SCHEMA, active: None, previous: None, history: Seq::empty() }
}

impl Default for RecordFile {
    fn default() -> (r: Self)
        ensures
            r@ == blank(),
    {
        let r = RecordFile { schema: SCHEMA, active: None, previous: None, history: Vec::new() };
        assert(r@ == blank());
        r
    }
}

/// The newest `cap` entries of `history`.
pub open spec fn newest(history: Seq<EventView>, cap: nat) -> Seq<EventView> {
    if history.len() > cap {
        history.skip(history.len() - cap)
    } else {
        history
    }
}

impl RecordView {
    /// The record with one more thing that happened.
    pub open spec fn push(self, event: EventView) -> RecordView {
        RecordView { history: newest(self.history.push(event), HISTORY_CAP as nat), ..self }
    }

    /// The record with `id` as the active generation, and the one it took
    /// over from as the previous one.
    pub open spec fn pin(self, id: Seq<char>) -> RecordView {
        RecordView {
            active: Some(id),
            previous: if self.active == Some(id) {
                self.previous
            } else {
                self.active
            },
            ..self
        }
    }

    /// The record once `id` went live at `at`.
    pub open spec fn activated(self, id: Seq<char>, at: i64) -> RecordView {
        self.pin(id).push(
            EventView { what: EventKind::Activated, generation: id, detail: None, at_unix_ms: at },
        )
    }

    /// The record once `refused` fell back to `to` at `at`.
    pub open spec fn fell_back(
        self,
        refused: Seq<char>,
        to: Seq<char>,
        detail: Seq<char>,
        at: i64,
    ) -> RecordView {
        self.push(
            EventView {
                what: EventKind::FellBack,
                generation: refused,
                detail: Some(detail + "; reloaded "@ + to),
                at_unix_ms: at,
            },
        )
    }

    /// The record once `id` was refused at `at`, with nothing reloaded over it.
    pub open spec fn probe_failed(self, id: Seq<char>, detail: Seq<char>, at: i64) -> RecordView {
        self.push(
            EventView {
                what: EventKind::ProbeFailed,
                generation: id,
                detail: Some(detail),
                at_unix_ms: at,
            },
        )
    }

    /// The record once `id` would not extract at `at`.
    pub open spec fn extract_failed(self, id: Seq<char>, detail: Seq<char>, at: i64) -> RecordView {
        self.push(
            EventView {
                what: EventKind::ExtractFailed,
                generation: id,
                detail: Some(detail),
                at_unix_ms: at,
            },
        )
    }

    /// When the newest entry happened.
    pub open spec fn stamp(self) -> i64 {
        self.history.last().at_unix_ms
    }
}

/// What a load makes of the record found on disk, if one could be read.
pub open spec fn taken_up(stored: Option<RecordView>) -> RecordView {
    match stored {
        Some(record) => if record.schema == SCHEMA {
            record
        } else {
            blank()
        },
        None => blank(),
    }
}

/// The record, loaded once and rewritten on every event.
#[derive(Debug)]
pub struct ActivationLog {
    path: TreePath,
    record: RecordFile,
}

impl View for ActivationLog {
    type V = RecordView;

    closed spec fn view(&self) -> RecordView {
        self.record@
    }
}

impl ActivationLog {
    /// Where the record is stored.
    pub closed spec fn place(&self) -> TreePathView {
        self.path@
    }

    /// Take up the record `stored` at `path`, starting fresh when there is
    /// none that could be read or it is of another schema: a corrupt record
    /// must not brick the catalog.
    pub fn load(path: TreePath, stored: Option<RecordFile>) -> (r: Self)
        ensures
            r.place() == path@,
            r@ == taken_up(
                match stored {
                    Some(record) => Some(record@),
                    None => None,
                },
            ),
    {
        let record = match stored {
            Some(record) => if record.schema == SCHEMA {
                record
            } else {
                RecordFile::default()
            },
            None => RecordFile::default(),
        };
        ActivationLog { path, record }
    }

    /// Where the record is stored.
    pub fn path(&self) -> (r: &TreePath)
        ensures
            r@ == self.place(),
    {
        &self.path
    }

    /// The generation recorded as active, which is what a boot re-probes.
    pub fn active(&self) -> (r: Option<&str>)
        ensures
            (match r {
                Some(id) => Some(id@),
                None => None,
            }) == self@.active,
    {
        match &self.record.active {
            Some(id) => Some(id.as_str()),
            None => None,
        }
    }

    /// The generation active before the current one: the fallback pin.
    pub fn previous(&self) -> (r: Option<&str>)
        ensures
            (match r {
                Some(id) => Some(id@),
                None => None,
            }) == self@.previous,
    {
        match &self.record.previous {
            Some(id) => Some(id.as_str()),
            None => None,
        }
    }

    /// The recorded history, oldest first.
    pub fn history(&self) -> (r: &[Event])
        ensures
            events(r@) == self@.history,
    {
        self.record.history.as_slice()
    }

    /// Record that `id` went live.
    pub fn activated(&mut self, id: &str)
        ensures
            final(self).place() == old(self).place(),
            final(self)@.stamp() >= 0,
            final(self)@ == old(self)@.activated(id@, final(self)@.stamp()),
    {
        let same = match &self.record.active {
            Some(active) => *active == id.to_owned(),
            None => false,
        };
        if !same {
            self.record.previous = self.record.active.take();
        }
        self.record.active = Some(id.to_owned());
        assert(self@ == old(self)@.pin(id@));
        self.push(EventKind::Activated, id, None);
    }

    /// Record that `refused` did not activate and `to` was reloaded.
    pub fn fell_back(&mut self, refused: &str, to: &str, detail: String)
        ensures
            final(self).place() == old(self).place(),
            final(self)@.stamp() >= 0,
            final(self)@ == old(self)@.fell_back(refused@, to@, detail@, final(self)@.stamp()),
    {
        let mut said = detail;
        said.append("; reloaded ");
        said.append(to);
        self.push(EventKind::FellBack, refused, Some(said));
    }

    /// Record that `id` was refused with nothing reloaded over it.
    pub fn probe_failed(&mut self, id: &str, detail: String)
        ensures
            final(self).place() == old(self).place(),
            final(self)@.stamp() >= 0,
            final(self)@ == old(self)@.probe_failed(id@, detail@, final(self)@.stamp()),
    {
        self.push(EventKind::ProbeFailed, id, Some(detail));
    }

    /// Record that `id` would not extract.
    pub fn extract_failed(&mut self, id: &str, detail: String)
        ensures
            final(self).place() == old(self).place(),
            final(self)@.stamp() >= 0,
            final(self)@ == old(self)@.extract_failed(id@, detail@, final(self)@.stamp()),
    {
        self.push(EventKind::ExtractFailed, id, Some(detail));
    }

    /// Append what happened, stamped with the time it is now.
    pub fn push(&mut self, what: EventKind, generation: &str, detail: Option<String>)
        ensures
            final(self).place() == old(self).place(),
            final(self)@.stamp() >= 0,
            final(self)@ == old(self)@.push(
                EventView {
                    what,
                    generation: generation@,
                    detail: text_if(detail),
                    at_unix_ms: final(self)@.stamp(),
                },
            ),
    {
        self.push_at(what, generation, detail, now_ms());
    }

    /// Append what happened at `at_unix_ms`, dropping the oldest entries
    /// over the cap.
    pub fn push_at(
        &mut self,
        what: EventKind,
        generation: &str,
        detail: Option<String>,
        at_unix_ms: i64,
    )
        ensures
            final(self).place() == old(self).place(),
            final(self)@ == old(self)@.push(
                EventView { what, generation: generation@, detail: text_if(detail), at_unix_ms },
            ),
    {
        let event = Event { what, generation: generation.to_owned(), detail, at_unix_ms };
        let ghost was = self.record.history@;
        self.record.history.push(event);
        assert(events(self.record.history@) == events(was).push(event@));
        if self.record.history.len() > HISTORY_CAP {
            let excess: usize = self.record.history.len() - HISTORY_CAP;
            let ghost full = self.record.history@;
            let kept = self.record.history.split_off(excess);
            self.record.history = kept;
            assert(events(self.record.history@) == events(full).skip(excess as int));
        }
    }

    /// The record to store, under a sibling name first and then renamed into
    /// place, so a crash leaves the previous record rather than half of this
    /// one.
    pub fn persist(&self) -> (r: RecordFile)
        ensures
            r@ == self@,
    {
        self.record.clone()
    }
}

/// `UNIX_EPOCH.elapsed()`, in whole milliseconds: how long ago the Unix epoch
/// was by the system clock, or nothing when the clock stands before it.
/// Nothing is claimed of what the clock shows.
#[verifier::external_body]
fn since_epoch_ms() -> (r: Option<u128>)
{
    match std::time::UNIX_EPOCH.elapsed() {
        Ok(since) => Some(since.as_millis()),
        Err(_) => None,
    }
}

/// A time in Unix milliseconds: zero before the epoch, and never past what
/// the record can hold.
pub fn clamp_ms(since: Option<u128>) -> (r: i64)
    ensures
        r as int == (match since {
            None => 0int,
            Some(ms) => if ms > i64::MAX {
                i64::MAX as int
            } else {
                ms as int
            },
        }),
{
    match since {
        None => 0,
        Some(ms) => if ms > i64::MAX as u128 {
            i64::MAX
        } else {
            ms as i64
        },
    }
}

/// The time it is now, as Unix milliseconds.
pub fn now_ms() -> (r: i64)
    ensures
        r >= 0,
{
    clamp_ms(since_epoch_ms())
}

} // verus!
