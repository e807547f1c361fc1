//! The activation record, over any number of events and reloads.

use vstd::prelude::*;

use crate::record::{
    events, newest, taken_up, Event, EventKind, EventView, RecordFile, RecordView,
    HISTORY_CAP, SCHEMA,
};

verus! {

/// Something the log is told, and when.
pub enum Note {
    Activated { id: Seq<char>, at: i64 },
    FellBack { refused: Seq<char>, to: Seq<char>, detail: Seq<char>, at: i64 },
    ProbeFailed { id: Seq<char>, detail: Seq<char>, at: i64 },
    ExtractFailed { id: Seq<char>, detail: Seq<char>, at: i64 },
}

/// The record once `note` was taken.
pub open spec fn noted(record: RecordView, note: Note) -> RecordView {
    match note {
        Note::Activated { id, at } => record.activated(id, at),
        Note::FellBack { refused, to, detail, at } => record.fell_back(refused, to, detail, at),
        Note::ProbeFailed { id, detail, at } => record.probe_failed(id, detail, at),
        Note::ExtractFailed { id, detail, at } => record.extract_failed(id, detail, at),
    }
}

/// The record once all of `notes` were taken.
pub open spec fn all_noted(record: RecordView, notes: Seq<Note>) -> RecordView
    decreases notes.len(),
{
    if notes.len() == 0 {
        record
    } else {
        noted(all_noted(record, notes.drop_last()), notes.last())
    }
}

/// The generation that went live last, of those that `notes` tell of.
pub open spec fn last_activated(notes: Seq<Note>) -> Option<Seq<char>>
    decreases notes.len(),
{
    if notes.len() == 0 {
        None
    } else {
        match notes.last() {
            Note::Activated { id, .. } => Some(id),
            _ => last_activated(notes.drop_last()),
        }
    }
}

proof fn schema_stays(record: RecordView, notes: Seq<Note>)
    ensures
        all_noted(record, notes).schema == record.schema,
    decreases notes.len(),
{
    if notes.len() > 0 {
        schema_stays(record, notes.drop_last());
    }
}

/// The record survives a reload: whatever a log took up and was told since,
/// what it stores is what the next load takes up, pins and history alike.
pub proof fn a_stored_record_is_taken_up_again(stored: Option<RecordView>, notes: Seq<Note>)
    ensures
        taken_up(Some(all_noted(taken_up(stored), notes))) == all_noted(taken_up(stored), notes),
{
    schema_stays(taken_up(stored), notes);
}

/// A record of this schema is taken up as it is stored, pins and history
/// alike.
pub proof fn a_record_is_taken_up_as_it_is_stored(record: RecordView)
    requires
        record.schema == 1,
    ensures
        taken_up(Some(record)) == record,
{
}

/// A record that cannot be read, or is of another schema, starts fresh.
pub proof fn an_unusable_record_starts_fresh(stored: Option<RecordView>)
    requires
        stored matches Some(record) ==> record.schema != 1,
    ensures
        taken_up(stored).active is None,
        taken_up(stored).previous is None,
        taken_up(stored).history.len() == 0,
        taken_up(stored).schema == 1,
        SCHEMA == 1,
{
}

/// The active pin is the generation that went live last; other events leave
/// it.
pub proof fn the_active_pin_is_what_went_live_last(record: RecordView, notes: Seq<Note>)
    ensures
        all_noted(record, notes).active == (match last_activated(notes) {
            Some(id) => Some(id),
            None => record.active,
        }),
    decreases notes.len(),
{
    if notes.len() > 0 {
        the_active_pin_is_what_went_live_last(record, notes.drop_last());
    }
}

/// The generations that went live, of those that `notes` tell of, in order.
pub open spec fn went_live(notes: Seq<Note>) -> Seq<Seq<char>>
    decreases notes.len(),
{
    if notes.len() == 0 {
        Seq::empty()
    } else {
        match notes.last() {
            Note::Activated { id, .. } => went_live(notes.drop_last()).push(id),
            _ => went_live(notes.drop_last()),
        }
    }
}

/// The last of `ids` that is not `id`.
pub open spec fn last_but(ids: Seq<Seq<char>>, id: Seq<char>) -> Option<Seq<char>>
    decreases ids.len(),
{
    if ids.len() == 0 {
        None
    } else if ids.last() != id {
        Some(ids.last())
    } else {
        last_but(ids.drop_last(), id)
    }
}

proof fn what_went_live_last(notes: Seq<Note>)
    ensures
        last_activated(notes) == (if went_live(notes).len() == 0 {
            None
        } else {
            Some(went_live(notes).last())
        }),
    decreases notes.len(),
{
    if notes.len() > 0 {
        what_went_live_last(notes.drop_last());
    }
}

/// The previous pin is the last generation to go live before the active one
/// that was another; when there is none among `notes`, it is what the record
/// had active before them, or previous if the active one was active already.
pub proof fn the_previous_pin_is_the_last_other_that_went_live(
    record: RecordView,
    notes: Seq<Note>,
)
    ensures
        all_noted(record, notes).previous == (match last_activated(notes) {
            None => record.previous,
            Some(id) => match last_but(went_live(notes), id) {
                Some(other) => Some(other),
                None => if record.active == Some(id) {
                    record.previous
                } else {
                    record.active
                },
            },
        }),
    decreases notes.len(),
{
    if notes.len() > 0 {
        let earlier = notes.drop_last();
        the_previous_pin_is_the_last_other_that_went_live(record, earlier);
        the_active_pin_is_what_went_live_last(record, earlier);
        what_went_live_last(earlier);
        if let Note::Activated { id, .. } = notes.last() {
            assert(went_live(notes).drop_last() == went_live(earlier));
            assert(last_but(went_live(notes), id) == last_but(went_live(earlier), id));
        }
    }
}

/// Whether the previous pin names another generation than the active one, and
/// none without an active one.
pub open spec fn pins_apart(record: RecordView) -> bool {
    match record.active {
        Some(id) => record.previous != Some(id),
        None => record.previous is None,
    }
}

/// The previous pin never names the active generation, and names none before
/// any is active: that holds of a fresh record, and whatever a log is told
/// keeps it.
pub proof fn the_pins_stay_apart(record: RecordView, notes: Seq<Note>)
    ensures
        pins_apart(taken_up(None)),
        pins_apart(record) ==> pins_apart(all_noted(record, notes)),
    decreases notes.len(),
{
    if notes.len() > 0 {
        the_pins_stay_apart(record, notes.drop_last());
    }
}

/// Activation moves the pins: the generation that was active is the previous
/// one once another is.
pub proof fn activation_moves_the_pins(record: RecordView, id: Seq<char>, at: i64)
    requires
        record.active != Some(id),
    ensures
        record.activated(id, at).active == Some(id),
        record.activated(id, at).previous == record.active,
{
}

/// Re-activating the active generation keeps the previous pin.
pub proof fn reactivation_keeps_the_previous_pin(
    record: RecordView,
    id: Seq<char>,
    at: i64,
    again: i64,
)
    ensures
        record.activated(id, at).activated(id, again).active == Some(id),
        record.activated(id, at).activated(id, again).previous == record.activated(id, at).previous,
{
}

/// A refusal of any kind moves no pin.
pub proof fn refusals_move_no_pin(
    record: RecordView,
    id: Seq<char>,
    to: Seq<char>,
    detail: Seq<char>,
    at: i64,
)
    ensures
        record.fell_back(id, to, detail, at).active == record.active,
        record.fell_back(id, to, detail, at).previous == record.previous,
        record.probe_failed(id, detail, at).active == record.active,
        record.probe_failed(id, detail, at).previous == record.previous,
        record.extract_failed(id, detail, at).active == record.active,
        record.extract_failed(id, detail, at).previous == record.previous,
{
}

/// Every event says what happened, to which generation, why, and when.
pub proof fn every_event_says_what_happened(
    record: RecordView,
    id: Seq<char>,
    to: Seq<char>,
    detail: Seq<char>,
    at: i64,
)
    ensures
        record.activated(id, at).history.last() == (EventView {
            what: EventKind::Activated,
            generation: id,
            detail: None,
            at_unix_ms: at,
        }),
        record.fell_back(id, to, detail, at).history.last() == (EventView {
            what: EventKind::FellBack,
            generation: id,
            detail: Some(detail + "; reloaded "@ + to),
            at_unix_ms: at,
        }),
        record.probe_failed(id, detail, at).history.last() == (EventView {
            what: EventKind::ProbeFailed,
            generation: id,
            detail: Some(detail),
            at_unix_ms: at,
        }),
        record.extract_failed(id, detail, at).history.last() == (EventView {
            what: EventKind::ExtractFailed,
            generation: id,
            detail: Some(detail),
            at_unix_ms: at,
        }),
        record.activated(id, at).stamp() == at,
        record.fell_back(id, to, detail, at).stamp() == at,
        record.probe_failed(id, detail, at).stamp() == at,
        record.extract_failed(id, detail, at).stamp() == at,
{
}

/// An event adds one entry and drops the oldest one from a full history; the
/// entries between stay as they are.
pub proof fn an_event_adds_one_entry(record: RecordView, note: Note, i: int)
    ensures
        record.history.len() < 64 ==> noted(record, note).history.len() == record.history.len() + 1,
        record.history.len() >= 64 ==> noted(record, note).history.len() == 64,
        record.history.len() < 64 && 0 <= i < record.history.len() ==> noted(record, note).history[i]
            == record.history[i],
        record.history.len() >= 64 && 0 <= i < 63 ==> noted(record, note).history[i]
            == record.history[record.history.len() - 63 + i],
        noted(record, note).schema == record.schema,
{
}

/// A stored record is read with its schema, its pins and its whole history.
pub proof fn a_stored_record_hides_nothing(record: RecordFile)
    ensures
        record@.schema == record.schema,
        record.active is None <==> record@.active is None,
        record.active matches Some(id) ==> record@.active == Some(id@),
        record.previous is None <==> record@.previous is None,
        record.previous matches Some(id) ==> record@.previous == Some(id@),
        record@.history == events(record.history@),
{
}

/// The history of a record is that of its entries, one for each and in order.
pub proof fn every_entry_is_in_the_history(history: Seq<Event>)
    ensures
        events(history).len() == history.len(),
        forall|i: int|
            0 <= i < history.len() ==> {
                &&& (#[trigger] events(history)[i]).what == history[i].what
                &&& events(history)[i].generation == history[i].generation@
                &&& events(history)[i].at_unix_ms == history[i].at_unix_ms
                &&& events(history)[i].detail is Some <==> history[i].detail is Some
                &&& history[i].detail matches Some(detail) ==> events(history)[i].detail == Some(
                    detail@,
                )
            },
{
}

/// The history is capped: after any event it holds no more than the cap, ends
/// in that event, and the oldest entries alone were dropped, none of them
/// below the cap.
pub proof fn the_history_is_capped(record: RecordView, event: EventView)
    ensures
        HISTORY_CAP == 64,
        record.push(event).history.len() <= 64,
        record.history.len() >= 64 ==> record.push(event).history.len() == 64,
        record.push(event).history.len() > 0,
        record.push(event).history.last() == event,
        record.push(event).history.is_suffix_of(record.history.push(event)),
        record.history.len() < 64 ==> record.push(event).history == record.history.push(event),
        record.push(event).active == record.active,
        record.push(event).previous == record.previous,
        record.push(event).schema == record.schema,
{
    let all = record.history.push(event);
    assert(newest(all, HISTORY_CAP as nat).is_suffix_of(all)) by {
        if all.len() > HISTORY_CAP {
            assert(all.skip(all.len() - HISTORY_CAP) == all.subrange(
                all.len() - HISTORY_CAP,
                all.len() as int,
            ));
        } else {
            assert(all == all.subrange(0, all.len() as int));
        }
    }
}

} // verus!
