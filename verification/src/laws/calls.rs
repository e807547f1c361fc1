//! What one call comes to, in what other calls give before and after it.

use std::path::PathBuf;
use vstd::prelude::*;

use crate::catalog::{Attempt, PluginCatalog, Recall, Refused, Step};
use crate::config::{CatalogConfig, ChannelConfig, Error, UpdaterConfig};
use crate::desktop::{
    default_root, event_shown, parse_args, parse_line, playing_line, resolve_file, status_lines,
    top_up, unasked, worker_config, Command, Duty, Input, Options, Received, UpdaterStatus, Worker,
};
use crate::generation::{boot_order, modified_at, Generation};
use crate::laws::boot::{
    a_boot_tries_everything_once, otherwise_the_newest_is_tried_first,
    the_recorded_generation_is_tried_first, what_is_installed_is_found,
};
use crate::laws::catalog::{a_tick_tries_what_is_due, due};
use crate::laws::desktop::{
    a_status_tells_of_everything, every_argument_does_one_thing, every_command_is_understood,
    is_flag, play_and_a_word_play, the_command_line_may_be_empty, topping_up_never_overfills,
};
use crate::laws::payload::{
    a_sweep_keeps_the_live_trees_and_clears_the_rest, a_sweep_removes_entries_alone,
    a_tree_is_refused_for_the_first_missing_library,
};
use crate::laws::player::{an_extension_is_handled_when_a_decoder_lists_it, dotted, lists};
use crate::payload::{
    inspected, zstd_decoded, ArchiveRead, Contents, Entry, Extraction, Failure, Found,
    Installed, PayloadStep, PayloadStore, UnpackFailure, Unpacking,
};
use crate::player::{
    normal, playback_count, select, BackendError, LoadReport, OpenRequest, Opened, PlaybackStatus,
    PlayerBackend, SessionFailure, StreamFormat, SwapReport,
};
use crate::record::{clamp_ms, events, ActivationLog, Event, EventKind, RecordFile};
use crate::text::{lowercase, number, texts, words};
use crate::tree::{places, TreePath, TreePathView};

verus! {

/// After a mount that opened its media, the player gives the opened plugin's
/// name and the media's extension, stands at the first frame and plays,
/// whatever was mounted before. Its budgets stay.
pub proof fn after_a_mount(
    backend: &mut PlayerBackend,
    opened: Opened,
    r: Result<(), BackendError>,
    name: &str,
    extension: &str,
    at: Option<u64>,
    status: PlaybackStatus,
    live: bool,
    before: OpenRequest,
    after: OpenRequest,
    subsong: u16,
)
    requires
        call_ensures(PlayerBackend::mount, (backend, Ok(opened)), r),
        call_ensures(PlayerBackend::plugin_name, (&*final(backend),), name),
        call_ensures(PlayerBackend::media_extension, (&*final(backend),), extension),
        call_ensures(PlayerBackend::capture, (&*final(backend),), at),
        call_ensures(PlayerBackend::status, (&*final(backend),), status),
        call_ensures(PlayerBackend::is_live, (&*final(backend),), live),
        call_ensures(PlayerBackend::open_request, (&*old(backend), subsong), before),
        call_ensures(PlayerBackend::open_request, (&*final(backend), subsong), after),
    ensures
        r is Ok,
        name@ == opened.plugin_name@,
        opened.extension matches Some(asked) ==> extension@ == lowercase(asked@),
        opened.extension is None ==> extension@.len() == 0,
        at == Some(0u64),
        status == PlaybackStatus::Playing,
        live,
        after == before,
        after.subsong == subsong,
{
    reveal_strlit("");
}

/// After a mount that failed, with the error it failed with, nothing is
/// mounted.
pub proof fn after_a_failed_mount(
    backend: &mut PlayerBackend,
    error: BackendError,
    r: Result<(), BackendError>,
    name: &str,
    extension: &str,
    at: Option<u64>,
    status: PlaybackStatus,
    live: bool,
)
    requires
        call_ensures(PlayerBackend::mount, (backend, Err(error)), r),
        call_ensures(PlayerBackend::plugin_name, (&*final(backend),), name),
        call_ensures(PlayerBackend::media_extension, (&*final(backend),), extension),
        call_ensures(PlayerBackend::capture, (&*final(backend),), at),
        call_ensures(PlayerBackend::status, (&*final(backend),), status),
        call_ensures(PlayerBackend::is_live, (&*final(backend),), live),
    ensures
        r == Err::<(), BackendError>(error),
        name@.len() == 0,
        extension@.len() == 0,
        at is None,
        status == PlaybackStatus::Idle,
        !live,
{
    reveal_strlit("");
}

/// After a close nothing is mounted.
pub proof fn after_a_close(
    backend: &mut PlayerBackend,
    at: Option<u64>,
    status: PlaybackStatus,
    live: bool,
)
    requires
        call_ensures(PlayerBackend::close, (backend,), ()),
        call_ensures(PlayerBackend::capture, (&*final(backend),), at),
        call_ensures(PlayerBackend::status, (&*final(backend),), status),
        call_ensures(PlayerBackend::is_live, (&*final(backend),), live),
    ensures
        at is None,
        status == PlaybackStatus::Idle,
        !live,
{
}

/// A toggle pauses what plays and plays what is paused, says which, and leaves
/// anything else alone; the position and the media stay.
pub proof fn after_a_toggle(
    backend: &mut PlayerBackend,
    r: Option<bool>,
    before: PlaybackStatus,
    after: PlaybackStatus,
    at: Option<u64>,
    still_at: Option<u64>,
    name: &str,
    same_name: &str,
)
    requires
        call_ensures(PlayerBackend::toggle_pause, (backend,), r),
        call_ensures(PlayerBackend::status, (&*old(backend),), before),
        call_ensures(PlayerBackend::status, (&*final(backend),), after),
        call_ensures(PlayerBackend::capture, (&*old(backend),), at),
        call_ensures(PlayerBackend::capture, (&*final(backend),), still_at),
        call_ensures(PlayerBackend::plugin_name, (&*old(backend),), name),
        call_ensures(PlayerBackend::plugin_name, (&*final(backend),), same_name),
    ensures
        before == PlaybackStatus::Playing ==> after == PlaybackStatus::Paused && r == Some(false),
        before == PlaybackStatus::Paused ==> after == PlaybackStatus::Playing && r == Some(true),
        before != PlaybackStatus::Playing && before != PlaybackStatus::Paused ==> after == before
            && r is None,
        still_at == at,
        same_name@ == name@,
{
}

/// A player that plays decodes what is wanted, up to its budget; one that does
/// not, or of which no frame is wanted, decodes nothing.
pub proof fn what_a_render_decodes(
    backend: &PlayerBackend,
    frames: u32,
    r: Option<u32>,
    status: PlaybackStatus,
    request: OpenRequest,
    subsong: u16,
)
    requires
        call_ensures(PlayerBackend::render, (backend, frames), r),
        call_ensures(PlayerBackend::status, (backend,), status),
        call_ensures(PlayerBackend::open_request, (backend, subsong), request),
    ensures
        status != PlaybackStatus::Playing || frames == 0 ==> r is None,
        status == PlaybackStatus::Playing && 0 < frames <= request.max_frames ==> r == Some(frames),
        status == PlaybackStatus::Playing && frames > request.max_frames ==> r == Some(
            request.max_frames,
        ),
{
}

/// Decoded frames move the position by as many, and the last of them finish
/// the session.
pub proof fn after_rendering(
    backend: &mut PlayerBackend,
    produced: u64,
    finished: bool,
    before: PlaybackStatus,
    after: PlaybackStatus,
    at: Option<u64>,
    now_at: Option<u64>,
)
    requires
        call_ensures(PlayerBackend::rendered, (backend, produced, finished), ()),
        call_ensures(PlayerBackend::status, (&*old(backend),), before),
        call_ensures(PlayerBackend::status, (&*final(backend),), after),
        call_ensures(PlayerBackend::capture, (&*old(backend),), at),
        call_ensures(PlayerBackend::capture, (&*final(backend),), now_at),
    ensures
        at is None ==> now_at is None && after == before,
        at matches Some(frame) ==> frame + produced <= u64::MAX ==> now_at == Some(
            (frame + produced) as u64,
        ),
        at matches Some(frame) ==> frame + produced > u64::MAX ==> now_at == Some(u64::MAX),
        at is Some && finished ==> after == PlaybackStatus::Finished,
        !finished ==> after == before,
{
}

/// A new player, and one whose set was swapped, handles what the decoders of
/// the set list, and has nothing mounted. A swap counts the decoders and hands
/// the rejected paths on.
pub proof fn after_a_swap(
    backend: &mut PlayerBackend,
    plugins: LoadReport,
    r: SwapReport,
    live: bool,
    asked: &str,
    undotted: Seq<char>,
    dots: nat,
    handled: bool,
)
    requires
        call_ensures(PlayerBackend::swap_plugins, (backend, plugins), r),
        call_ensures(PlayerBackend::is_live, (&*final(backend),), live),
        call_ensures(PlayerBackend::can_handle_extension, (&*final(backend), asked), handled),
        asked@ == dotted(dots, undotted),
        undotted.len() == 0 || undotted[0] != '.',
    ensures
        !live,
        r.loaded == playback_count(plugins.plugins@),
        r.errors == plugins.errors,
        handled <==> exists|p: int, i: int, j: int| lists(plugins.plugins@, undotted, p, i, j),
{
    an_extension_is_handled_when_a_decoder_lists_it(final(backend)@, undotted, dots);
    assert(final(backend)@.plugins == plugins.plugins@);
    assert(handled == final(backend)@.extensions.contains(normal(dotted(dots, undotted))));
}

/// What a new player holds: the set that loaded, the budgets it was given, and
/// no session.
pub proof fn a_new_player(
    plugins: LoadReport,
    target: StreamFormat,
    max_frames: u32,
    backend: PlayerBackend,
    live: bool,
    subsong: u16,
    request: OpenRequest,
    asked: &str,
    undotted: Seq<char>,
    dots: nat,
    handled: bool,
)
    requires
        call_ensures(PlayerBackend::new, (plugins, target, max_frames), backend),
        call_ensures(PlayerBackend::is_live, (&backend,), live),
        call_ensures(PlayerBackend::open_request, (&backend, subsong), request),
        call_ensures(PlayerBackend::can_handle_extension, (&backend, asked), handled),
        asked@ == dotted(dots, undotted),
        undotted.len() == 0 || undotted[0] != '.',
    ensures
        !live,
        request.subsong == subsong,
        request.target == target,
        request.max_frames == max_frames,
        handled <==> exists|p: int, i: int, j: int| lists(plugins.plugins@, undotted, p, i, j),
{
    an_extension_is_handled_when_a_decoder_lists_it(backend@, undotted, dots);
    assert(backend@.plugins == plugins.plugins@);
    assert(handled == backend@.extensions.contains(normal(dotted(dots, undotted))));
}

/// A player without a set handles nothing and has nothing mounted.
pub proof fn after_an_unload(
    backend: &mut PlayerBackend,
    live: bool,
    asked: &str,
    handled: bool,
)
    requires
        call_ensures(PlayerBackend::unload, (backend,), ()),
        call_ensures(PlayerBackend::is_live, (&*final(backend),), live),
        call_ensures(PlayerBackend::can_handle_extension, (&*final(backend), asked), handled),
    ensures
        !live,
        !handled,
{
}

/// A selection hands on the plugin, or tells media that no plugin took from
/// media that could not be read.
pub proof fn what_a_selection_gives<T>(
    plugin: T,
    cause: String,
    taken: Result<T, BackendError>,
    refused: Result<T, BackendError>,
    unread: Result<T, BackendError>,
)
    requires
        call_ensures(select::<T>, (Ok(Some(plugin)),), taken),
        call_ensures(select::<T>, (Ok(None),), refused),
        call_ensures(select::<T>, (Err(cause),), unread),
    ensures
        taken == Ok::<T, BackendError>(plugin),
        refused == Err::<T, BackendError>(BackendError::NoPlugin),
        unread == Err::<T, BackendError>(BackendError::Media(cause)),
{
}

/// What went wrong with a session keeps its kind and its cause.
pub proof fn a_session_failure_keeps_its_kind(
    cause: String,
    session: BackendError,
    visualization: BackendError,
    other: BackendError,
)
    requires
        call_ensures(
            <BackendError as From<SessionFailure>>::from,
            (SessionFailure::Session(cause),),
            session,
        ),
        call_ensures(
            <BackendError as From<SessionFailure>>::from,
            (SessionFailure::Visualization(cause),),
            visualization,
        ),
        call_ensures(
            <BackendError as From<SessionFailure>>::from,
            (SessionFailure::Other(cause),),
            other,
        ),
    ensures
        session == BackendError::Session(cause),
        visualization == BackendError::Visualization(cause),
        other == BackendError::Runtime(cause),
{
}

/// The text of a name, when there is one.
pub open spec fn name_of(name: Option<&str>) -> Option<Seq<char>> {
    match name {
        Some(name) => Some(name@),
        None => None,
    }
}

/// A tick with a completed generation tries it at once when nothing is
/// mounted, unless it is live, and keeps it for later when a session is. What
/// is live and the history stay.
pub proof fn a_tick_with_a_completed_generation(
    catalog: &mut PluginCatalog,
    found: Vec<Generation>,
    completed: Generation,
    backend: &PlayerBackend,
    r: Step,
    live: bool,
    active: Option<&str>,
    still_active: Option<&str>,
    pending: Option<&str>,
    history: &[Event],
    same_history: &[Event],
    booted: bool,
)
    requires
        call_ensures(PluginCatalog::tick, (catalog, found, Some(completed), backend), r),
        call_ensures(PlayerBackend::is_live, (backend,), live),
        call_ensures(PluginCatalog::active_generation, (&*old(catalog),), active),
        call_ensures(PluginCatalog::active_generation, (&*final(catalog),), still_active),
        call_ensures(PluginCatalog::pending_generation, (&*final(catalog),), pending),
        call_ensures(PluginCatalog::history, (&*old(catalog),), history),
        call_ensures(PluginCatalog::history, (&*final(catalog),), same_history),
        call_ensures(PluginCatalog::booted, (&*final(catalog),), booted),
    ensures
        live ==> r is Idle && name_of(pending) == Some(completed.id@),
        !live && name_of(active) != Some(completed.id@) ==> {
            &&& r is Extract
            &&& r->Extract_0.generation == completed
            &&& r->Extract_0.instead_of is None
            &&& pending is None
        },
        !live && name_of(active) == Some(completed.id@) ==> r is Idle && pending is None,
        name_of(still_active) == name_of(active),
        events(same_history@) == events(history@),
        booted,
{
}

/// A later tick without a completed generation tries the one that waits when
/// nothing is mounted, and changes nothing when none waits or a session is
/// mounted.
pub proof fn a_tick_with_nothing_completed(
    catalog: &mut PluginCatalog,
    found: Vec<Generation>,
    backend: &PlayerBackend,
    r: Step,
    booted: bool,
    live: bool,
    active: Option<&str>,
    pending: Option<&str>,
    still_pending: Option<&str>,
)
    requires
        call_ensures(PluginCatalog::tick, (catalog, found, None, backend), r),
        call_ensures(PluginCatalog::booted, (&*old(catalog),), booted),
        call_ensures(PlayerBackend::is_live, (backend,), live),
        call_ensures(PluginCatalog::active_generation, (&*old(catalog),), active),
        call_ensures(PluginCatalog::pending_generation, (&*old(catalog),), pending),
        call_ensures(PluginCatalog::pending_generation, (&*final(catalog),), still_pending),
        booted,
    ensures
        pending is None || live ==> r is Idle && final(catalog)@ == old(catalog)@,
        pending is Some && !live && name_of(pending) != name_of(active) ==> {
            &&& r is Extract
            &&& r->Extract_0.generation.id@ == pending->0@
            &&& r->Extract_0.instead_of is None
            &&& still_pending is None
        },
        pending is Some && !live && name_of(pending) == name_of(active) ==> r is Idle
            && still_pending is None,
{
}

/// Whether `generation` is what a boot tries first of what was found: the one
/// that the record names as active, or else one that is not older than any.
pub open spec fn tried_first(
    found: Seq<Generation>,
    active: Option<Seq<char>>,
    generation: Generation,
) -> bool {
    &&& found.contains(generation)
    &&& (active is Some && exists|i: int| 0 <= i < found.len() && (#[trigger] found[i]).id@
        == active->0) ==> generation.id@ == active->0
    &&& (active is None || forall|i: int| 0 <= i < found.len() ==> (#[trigger] found[i]).id@
        != active->0) ==> forall|i: int|
        0 <= i < found.len() ==> modified_at(#[trigger] found[i]) <= modified_at(generation)
}

proof fn what_a_boot_tries_first(found: Seq<Generation>, active: Option<Seq<char>>)
    requires
        found.len() > 0,
    ensures
        boot_order(found, active).len() == found.len(),
        tried_first(found, active, boot_order(found, active).last()),
{
    broadcast use vstd::seq_lib::group_to_multiset_ensures;

    let order = boot_order(found, active);
    a_boot_tries_everything_once(found, active);
    assert(order.len() == order.to_multiset().len());
    assert(found.len() == found.to_multiset().len());
    let first = order.last();
    assert(order[order.len() - 1] == first);
    assert(order.contains(first));
    assert(order.to_multiset().count(first) > 0);
    assert(found.contains(first));
    if active is Some && exists|i: int| 0 <= i < found.len() && (#[trigger] found[i]).id@
        == active->0 {
        the_recorded_generation_is_tried_first(found, active->0);
    } else {
        otherwise_the_newest_is_tried_first(found, active);
        assert forall|i: int| 0 <= i < found.len() implies modified_at(#[trigger] found[i])
            <= modified_at(first) by {
            assert(found.contains(found[i]));
            assert(found.to_multiset().count(found[i]) > 0);
            assert(order.contains(found[i]));
            let k = choose|k: int| 0 <= k < order.len() && order[k] == found[i];
            assert(modified_at(order[k]) <= modified_at(order[order.len() - 1]));
        }
    }
}

/// The first tick of a catalog tries what a boot tries first of what was
/// found, when nothing is mounted.
pub proof fn the_first_tick(
    catalog: &mut PluginCatalog,
    found: Vec<Generation>,
    backend: &PlayerBackend,
    r: Step,
    booted: bool,
    live: bool,
    active: Option<&str>,
    record: &ActivationLog,
    recorded: Option<&str>,
)
    requires
        call_ensures(PluginCatalog::tick, (catalog, found, None, backend), r),
        call_ensures(PluginCatalog::booted, (&*old(catalog),), booted),
        call_ensures(PlayerBackend::is_live, (backend,), live),
        call_ensures(PluginCatalog::active_generation, (&*old(catalog),), active),
        call_ensures(PluginCatalog::record, (&*old(catalog),), record),
        call_ensures(ActivationLog::active, (record,), recorded),
        !booted,
        active is None,
    ensures
        found@.len() == 0 || live ==> r is Idle,
        found@.len() > 0 && !live ==> {
            &&& r is Extract
            &&& r->Extract_0.instead_of is None
            &&& tried_first(found@, name_of(recorded), r->Extract_0.generation)
        },
{
    a_tick_tries_what_is_due(old(catalog)@, found@, None);
    if found@.len() > 0 {
        what_a_boot_tries_first(found@, name_of(recorded));
    }
    assert(due(old(catalog)@, found@, None) is Some <==> found@.len() > 0);
}

/// A mount drops the session and tries what waits, unless it is live; with
/// nothing waiting it leaves catalog and player alone.
pub proof fn a_mount_through_the_catalog(
    catalog: &mut PluginCatalog,
    found: Vec<Generation>,
    backend: &mut PlayerBackend,
    r: Step,
    booted: bool,
    active: Option<&str>,
    pending: Option<&str>,
    live: bool,
)
    requires
        call_ensures(PluginCatalog::mount, (catalog, found, backend), r),
        call_ensures(PluginCatalog::booted, (&*old(catalog),), booted),
        call_ensures(PluginCatalog::active_generation, (&*old(catalog),), active),
        call_ensures(PluginCatalog::pending_generation, (&*old(catalog),), pending),
        call_ensures(PlayerBackend::is_live, (&*final(backend),), live),
    ensures
        booted && pending is None ==> {
            &&& r is Idle
            &&& final(catalog)@ == old(catalog)@
            &&& final(backend)@ == old(backend)@
        },
        booted && pending is Some ==> !live,
        booted && pending is Some && name_of(pending) != name_of(active) ==> {
            &&& r is Extract
            &&& r->Extract_0.generation.id@ == pending->0@
            &&& r->Extract_0.instead_of is None
        },
        booted && pending is Some && name_of(pending) == name_of(active) ==> r is Idle,
        !booted && found@.len() == 0 ==> r is Idle && final(backend)@ == old(backend)@,
        !booted && found@.len() > 0 ==> !live,
        !booted && found@.len() > 0 && active is None ==> {
            &&& r is Extract
            &&& tried_first(found@, old(catalog)@.record.active, r->Extract_0.generation)
        },
{
    a_tick_tries_what_is_due(old(catalog)@, found@, None);
    if found@.len() > 0 {
        what_a_boot_tries_first(found@, old(catalog)@.record.active);
    } else {
        a_boot_order_is_empty(found@, old(catalog)@.record.active);
    }
}

proof fn a_boot_order_is_empty(found: Seq<Generation>, active: Option<Seq<char>>)
    requires
        found.len() == 0,
    ensures
        boot_order(found, active).len() == 0,
{
}

/// What extracted is loaded, from the libraries that were reported.
pub proof fn after_an_extraction(
    catalog: &mut PluginCatalog,
    attempt: Attempt,
    libraries: Vec<TreePath>,
    r: Step,
)
    requires
        call_ensures(PluginCatalog::extracted, (catalog, attempt, Ok(libraries)), r),
    ensures
        final(catalog)@ == old(catalog)@,
        r is Load,
        r->Load_0.generation == attempt.generation,
        r->Load_0.stead() == attempt.stead(),
        r->Load_1@.len() == libraries@.len(),
        forall|i: int| 0 <= i < libraries@.len() ==> (#[trigger] r->Load_1@[i])@ == libraries@[i]@,
{
    assert(places(r->Load_1@).len() == places(libraries@).len());
    assert forall|i: int| 0 <= i < libraries@.len() implies (#[trigger] r->Load_1@[i])@
        == libraries@[i]@ by {
        assert(places(r->Load_1@)[i] == places(libraries@)[i]);
    }
}

/// A generation that does not extract is recorded as that, makes nothing live,
/// and has what was live put back, or with nothing live the plugins dropped.
pub proof fn after_a_failed_extraction(
    catalog: &mut PluginCatalog,
    generation: Generation,
    detail: String,
    r: Step,
    active: Option<&str>,
    still_active: Option<&str>,
    history: &[Event],
)
    requires
        call_ensures(
            PluginCatalog::extracted,
            (catalog, (Attempt { generation, instead_of: None }), Err(detail)),
            r,
        ),
        call_ensures(PluginCatalog::active_generation, (&*old(catalog),), active),
        call_ensures(PluginCatalog::active_generation, (&*final(catalog),), still_active),
        call_ensures(PluginCatalog::history, (&*final(catalog),), history),
    ensures
        name_of(still_active) == name_of(active),
        history@.len() > 0,
        history@.last().what == EventKind::ExtractFailed,
        history@.last().generation@ == generation.id@,
        history@.last().detail is Some,
        history@.last().detail->0@ == detail@,
        active matches Some(previous) ==> {
            &&& r is Recall
            &&& r->Recall_0.refused.id@ == generation.id@
            &&& r->Recall_0.refused.detail is None
            &&& r->Recall_0.previous@ == previous@
        },
        active is None ==> r is Unload,
{
    assert(events(history@).len() == history@.len());
    assert(events(history@).last() == history@.last()@);
}

/// What is to be put back is put back when it is installed, in the stead of
/// the refused one; when it is not, nothing is live and the history ends in
/// that.
pub proof fn after_a_recall(
    catalog: &mut PluginCatalog,
    recall: Recall,
    found: Vec<Generation>,
    r: Step,
    active: Option<&str>,
    history: &[Event],
)
    requires
        call_ensures(PluginCatalog::recalled, (catalog, recall, found), r),
        call_ensures(PluginCatalog::active_generation, (&*final(catalog),), active),
        call_ensures(PluginCatalog::history, (&*final(catalog),), history),
    ensures
        (exists|i: int| 0 <= i < found@.len() && (#[trigger] found@[i]).id@ == recall.previous@)
            ==> {
            &&& r is Extract
            &&& r->Extract_0.generation.id@ == recall.previous@
            &&& found@.contains(r->Extract_0.generation)
            &&& r->Extract_0.stead() == Some(recall.refused@)
            &&& final(catalog)@ == old(catalog)@
        },
        (forall|i: int| 0 <= i < found@.len() ==> (#[trigger] found@[i]).id@ != recall.previous@)
            ==> {
            &&& r is Unload
            &&& active is None
            &&& history@.len() > 0
            &&& history@.last().what == EventKind::ProbeFailed
            &&& history@.last().generation@ == recall.previous@
        },
{
    what_is_installed_is_found(found@, recall.previous@);
    assert(events(history@).len() == history@.len());
    if events(history@).len() > 0 {
        assert(events(history@).last() == history@.last()@);
    }
}

/// A swap of which everything loaded makes the generation live, and the
/// history ends in that; the player holds its set.
pub proof fn after_a_whole_swap(
    catalog: &mut PluginCatalog,
    generation: Generation,
    report: LoadReport,
    backend: &mut PlayerBackend,
    r: Step,
    active: Option<&str>,
    history: &[Event],
)
    requires
        call_ensures(
            PluginCatalog::swapped,
            (catalog, (Attempt { generation, instead_of: None }), report, backend),
            r,
        ),
        call_ensures(PluginCatalog::active_generation, (&*final(catalog),), active),
        call_ensures(PluginCatalog::history, (&*final(catalog),), history),
        report.errors@.len() == 0,
        playback_count(report.plugins@) == generation.artifacts@.len(),
    ensures
        name_of(active) == Some(generation.id@),
        history@.len() > 0,
        history@.last().what == EventKind::Activated,
        history@.last().generation@ == generation.id@,
        final(backend)@.plugins == report.plugins@,
        r is CleanUp,
        texts(r->CleanUp_0.live@).contains(generation.id@),
        r->CleanUp_0.digests@.len() == generation.artifacts@.len(),
        forall|i: int|
            0 <= i < generation.artifacts@.len() ==> (#[trigger] r->CleanUp_0.digests@[i])@
                == generation.artifacts@[i].sha256@,
{
    let step = r@;
    assert(step->live[0] == generation.id@);
    assert(texts(r->CleanUp_0.live@)[0] == generation.id@);
    assert(step->digests.len() == generation.artifacts@.len());
    assert(texts(r->CleanUp_0.digests@).len() == r->CleanUp_0.digests@.len());
    assert forall|i: int| 0 <= i < generation.artifacts@.len() implies (
    #[trigger] r->CleanUp_0.digests@[i])@ == generation.artifacts@[i].sha256@ by {
        assert(texts(r->CleanUp_0.digests@)[i] == step->digests[i]);
    }
    assert(events(history@).len() == history@.len());
    assert(events(history@).last() == history@.last()@);
}

/// A swap of which not everything loaded makes nothing live. What was live is
/// to be put back and the history does not change; with nothing live the
/// history ends in the failed probe and the set is to be dropped.
pub proof fn after_a_refused_swap(
    catalog: &mut PluginCatalog,
    generation: Generation,
    report: LoadReport,
    backend: &mut PlayerBackend,
    r: Step,
    active: Option<&str>,
    still_active: Option<&str>,
    history: &[Event],
    after: &[Event],
)
    requires
        call_ensures(
            PluginCatalog::swapped,
            (catalog, (Attempt { generation, instead_of: None }), report, backend),
            r,
        ),
        call_ensures(PluginCatalog::active_generation, (&*old(catalog),), active),
        call_ensures(PluginCatalog::active_generation, (&*final(catalog),), still_active),
        call_ensures(PluginCatalog::history, (&*old(catalog),), history),
        call_ensures(PluginCatalog::history, (&*final(catalog),), after),
        report.errors@.len() > 0 || playback_count(report.plugins@) != generation.artifacts@.len(),
    ensures
        name_of(still_active) == name_of(active),
        active matches Some(previous) ==> {
            &&& r is Recall
            &&& r->Recall_0.refused.id@ == generation.id@
            &&& r->Recall_0.refused.detail is Some
            &&& r->Recall_0.previous@ == previous@
            &&& events(after@) == events(history@)
        },
        active is None ==> {
            &&& r is Unload
            &&& after@.len() > 0
            &&& after@.last().what == EventKind::ProbeFailed
            &&& after@.last().generation@ == generation.id@
        },
{
    assert(texts(report.errors@).len() == report.errors@.len());
    if active is None {
        assert(events(after@).len() == after@.len());
        assert(events(after@).last() == after@.last()@);
    }
}

/// A set that was put back whole leaves what was live, and all that the
/// history gains is the fall-back of the refused one.
pub proof fn after_a_set_was_put_back(
    catalog: &mut PluginCatalog,
    generation: Generation,
    refused: Refused,
    report: LoadReport,
    backend: &mut PlayerBackend,
    r: Step,
    active: Option<&str>,
    still_active: Option<&str>,
    history: &[Event],
    after: &[Event],
)
    requires
        call_ensures(
            PluginCatalog::swapped,
            (catalog, (Attempt { generation, instead_of: Some(refused) }), report, backend),
            r,
        ),
        call_ensures(PluginCatalog::active_generation, (&*old(catalog),), active),
        call_ensures(PluginCatalog::active_generation, (&*final(catalog),), still_active),
        call_ensures(PluginCatalog::history, (&*old(catalog),), history),
        call_ensures(PluginCatalog::history, (&*final(catalog),), after),
        report.errors@.len() == 0,
        playback_count(report.plugins@) == generation.artifacts@.len(),
    ensures
        r is Persist,
        name_of(still_active) == name_of(active),
        history@.len() < 64 ==> {
            &&& after@.len() == history@.len() + 1
            &&& forall|i: int|
                0 <= i < history@.len() ==> events(after@)[i] == #[trigger] events(history@)[i]
        },
        after@.len() > 0,
        after@.last().what == EventKind::FellBack,
        after@.last().generation@ == refused.id@,
        final(backend)@.plugins == report.plugins@,
{
    assert(texts(report.errors@).len() == report.errors@.len());
    assert(events(after@).len() == after@.len());
    assert(events(history@).len() == history@.len());
    assert(events(after@).last() == after@.last()@);
}

/// A new catalog has nothing live and nothing waiting, did not look at the
/// disk, takes up the record it is given, and tells its updater everything it
/// is configured with.
pub proof fn a_new_catalog<W>(
    config: CatalogConfig<W>,
    dll_suffix: &str,
    stored: Option<RecordFile>,
    r: (PluginCatalog, UpdaterConfig<W>),
    active: Option<&str>,
    pending: Option<&str>,
    booted: bool,
    history: &[Event],
    record: &ActivationLog,
    recorded: Option<&str>,
)
    requires
        call_ensures(PluginCatalog::new::<W>, (config, dll_suffix, stored), r),
        call_ensures(PluginCatalog::active_generation, (&r.0,), active),
        call_ensures(PluginCatalog::pending_generation, (&r.0,), pending),
        call_ensures(PluginCatalog::booted, (&r.0,), booted),
        call_ensures(PluginCatalog::history, (&r.0,), history),
        call_ensures(PluginCatalog::record, (&r.0,), record),
        call_ensures(ActivationLog::active, (record,), recorded),
    ensures
        active is None,
        pending is None,
        !booted,
        stored matches Some(file) ==> file.schema == 1 ==> events(history@) == events(
            file.history@,
        ) && name_of(recorded) == file@.active,
        (stored matches Some(file) ==> file.schema != 1) ==> history@.len() == 0 && recorded is None,
        r.1.install_root == config.root,
        r.1.cache_dir == config.cache_dir,
        r.1.trust_state_dir == config.trust_state_dir,
        r.1.channel == config.channel,
        r.1.embedded_root == config.embedded_root,
        r.1.target == Some(config.target),
        r.1.check_interval == config.check_interval,
        r.1.auto_apply == config.auto_apply,
        r.1.workers == config.workers,
        record.place() == config.root@.join("activation.json"@),
        r.0.payload_place() == config.root@.join("payloads"@),
        r.0.dll_suffix() == dll_suffix@,
{
    assert(events(history@).len() == history@.len());
}

/// A catalog comes with its updater, or with why there is none.
pub proof fn a_catalog_comes_with_its_updater<U>(
    catalog: PluginCatalog,
    updater: Result<U, String>,
    r: Result<(PluginCatalog, U), Error>,
)
    requires
        call_ensures(PluginCatalog::with_updater::<U>, (catalog, updater), r),
    ensures
        updater matches Ok(made) ==> r == Ok::<(PluginCatalog, U), Error>((catalog, made)),
        updater matches Err(cause) ==> r == Err::<(PluginCatalog, U), Error>(Error::Updater(cause)),
{
}

/// What a log stores is what the next load takes up.
pub proof fn what_a_log_stores_is_loaded_again(
    path: TreePath,
    stored: Option<RecordFile>,
    log: ActivationLog,
    file: RecordFile,
    other: TreePath,
    again: ActivationLog,
)
    requires
        call_ensures(ActivationLog::load, (path, stored), log),
        call_ensures(ActivationLog::persist, (&log,), file),
        call_ensures(ActivationLog::load, (other, Some(file)), again),
    ensures
        again@ == log@,
        again.place() == other@,
        log.place() == path@,
{
}

/// An activation is what the log names as active afterwards, before it what
/// was active, and its history ends in that.
pub proof fn after_an_activation(
    log: &mut ActivationLog,
    id: &str,
    was: Option<&str>,
    was_before: Option<&str>,
    active: Option<&str>,
    previous: Option<&str>,
    history: &[Event],
)
    requires
        call_ensures(ActivationLog::activated, (log, id), ()),
        call_ensures(ActivationLog::active, (&*old(log),), was),
        call_ensures(ActivationLog::previous, (&*old(log),), was_before),
        call_ensures(ActivationLog::active, (&*final(log),), active),
        call_ensures(ActivationLog::previous, (&*final(log),), previous),
        call_ensures(ActivationLog::history, (&*final(log),), history),
    ensures
        name_of(active) == Some(id@),
        name_of(was) != Some(id@) ==> name_of(previous) == name_of(was),
        name_of(was) == Some(id@) ==> name_of(previous) == name_of(was_before),
        history@.len() > 0,
        history@.last().what == EventKind::Activated,
        history@.last().generation@ == id@,
        history@.last().detail is None,
{
    assert(events(history@).len() == history@.len());
    assert(events(history@).last() == history@.last()@);
}

/// An event is stored with the time it is given, and the history keeps the
/// newest of what it had.
pub proof fn after_an_event(
    log: &mut ActivationLog,
    what: EventKind,
    generation: &str,
    detail: Option<String>,
    at: i64,
    history: &[Event],
    after: &[Event],
)
    requires
        call_ensures(ActivationLog::push_at, (log, what, generation, detail, at), ()),
        call_ensures(ActivationLog::history, (&*old(log),), history),
        call_ensures(ActivationLog::history, (&*final(log),), after),
    ensures
        history@.len() < 64 ==> after@.len() == history@.len() + 1,
        history@.len() >= 64 ==> after@.len() == 64,
        after@.last().what == what,
        after@.last().generation@ == generation@,
        after@.last().at_unix_ms == at,
        detail is None <==> after@.last().detail is None,
        detail matches Some(why) ==> after@.last().detail->0@ == why@,
{
    assert(events(history@).len() == history@.len());
    assert(events(after@).len() == after@.len());
    assert(events(after@).last() == after@.last()@);
}

/// A time before the epoch counts as the epoch, one that the record cannot
/// hold as the last it can, and any other as it is.
pub proof fn what_a_time_is_recorded_as(ms: u128, early: i64, r: i64)
    requires
        call_ensures(clamp_ms, (None,), early),
        call_ensures(clamp_ms, (Some(ms),), r),
    ensures
        early == 0,
        ms <= i64::MAX ==> r == ms,
        ms > i64::MAX ==> r == i64::MAX,
{
}

/// A committed tree is looked into for the library of every artifact; any
/// other is extracted, from the clearing of its staging directory on.
pub proof fn what_a_store_sets_out_to_do(
    store: &PayloadStore,
    id: &str,
    dir: &TreePath,
    artifacts: &Vec<Installed>,
    committed: bool,
    r: PayloadStep,
)
    requires
        call_ensures(PayloadStore::ensure, (store, id, dir, artifacts, committed), r),
    ensures
        committed ==> {
            &&& r is Inspect
            &&& r->Inspect_0@.len() == artifacts@.len()
            &&& forall|i: int|
                0 <= i < artifacts@.len() ==> (#[trigger] r->Inspect_0@[i])@
                    == store.place().join(id@).join(
                    artifacts@[i].name@ + "_playback"@ + store.suffix(),
                )
        },
        !committed ==> {
            &&& r is ClearStaging
            &&& r->ClearStaging_0.rest@ == artifacts@
            &&& r->ClearStaging_0.unpacked@.len() == 0
            &&& r->ClearStaging_0.staging@ == store.place().join(".staging-"@ + id@)
            &&& r->ClearStaging_0.dir@ == store.place().join(id@)
            &&& r->ClearStaging_0.generation_dir@ == dir@
            &&& r->ClearStaging_0.libraries@.len() == artifacts@.len()
        },
{
    if committed {
        assert(places(r->Inspect_0@).len() == artifacts@.len());
        assert forall|i: int| 0 <= i < artifacts@.len() implies (#[trigger] r->Inspect_0@[i])@
            == store.place().join(id@).join(
            artifacts@[i].name@ + "_playback"@ + store.suffix(),
        ) by {
            assert(places(r->Inspect_0@)[i] == r->Inspect_0@[i]@);
        }
    } else {
        assert(places(r->ClearStaging_0.libraries@).len() == artifacts@.len());
    }
}

/// The library of every artifact is in the tree that was asked for, and there
/// are no others.
pub proof fn what_the_libraries_of_a_tree_are(
    store: &PayloadStore,
    dir: &TreePath,
    artifacts: &Vec<Installed>,
    r: Vec<TreePath>,
)
    requires
        call_ensures(PayloadStore::libraries, (store, dir, artifacts), r),
    ensures
        r@.len() == artifacts@.len(),
        forall|i: int|
            0 <= i < artifacts@.len() ==> (#[trigger] r@[i])@ == dir@.join(
                artifacts@[i].name@ + "_playback"@ + store.suffix(),
            ),
{
}

/// An extraction that gets what it asks for clears, creates, unpacks and
/// commits, and is then looked into for its libraries.
pub proof fn what_an_extraction_asks_for(
    extraction: Extraction,
    unpacking: Unpacking,
    dir_shown: &str,
    content: Vec<u8>,
    cleared: PayloadStep,
    created: PayloadStep,
    decoded: PayloadStep,
    undecoded: PayloadStep,
    broken: PayloadStep,
    unpacked: PayloadStep,
    committed: PayloadStep,
)
    requires
        call_ensures(Extraction::cleared, (extraction, Ok(())), cleared),
        call_ensures(Extraction::created, (extraction, Ok(())), created),
        call_ensures(Unpacking::decoded, (unpacking, Some(content)), decoded),
        call_ensures(Unpacking::decoded, (unpacking, None), undecoded),
        call_ensures(Unpacking::read, (unpacking, ArchiveRead::Broken), broken),
        call_ensures(Unpacking::unpacked, (unpacking, Ok(())), unpacked),
        call_ensures(Extraction::committed, (extraction, Ok(()), dir_shown), committed),
    ensures
        cleared == PayloadStep::CreateStaging(extraction),
        extraction.rest@.len() == 0 ==> created == PayloadStep::Commit(extraction),
        extraction.rest@.len() > 0 && ".tar.zst"@.is_suffix_of(extraction.rest@[0].path@) ==> {
            &&& created is ReadArchive
            &&& created->ReadArchive_0.artifact == extraction.rest@[0]
            &&& created->ReadArchive_0.archive@ == extraction.generation_dir@.join(
                extraction.rest@[0].path@,
            )
        },
        extraction.rest@.len() > 0 && !".tar.zst"@.is_suffix_of(extraction.rest@[0].path@)
            ==> created is Refused,
        decoded == PayloadStep::Unpack(unpacking, Contents::Tar(content)),
        undecoded == PayloadStep::Unpack(unpacking, Contents::Stream),
        broken == PayloadStep::Unpack(unpacking, Contents::Stream),
        unpacking.extraction.rest@.len() == 0 ==> {
            &&& unpacked is Commit
            &&& unpacked->Commit_0.unpacked@ == unpacking.extraction.unpacked@.push(
                unpacking.artifact,
            )
        },
        unpacking.extraction.rest@.len() > 0 && ".tar.zst"@.is_suffix_of(
            unpacking.extraction.rest@[0].path@,
        ) ==> {
            &&& unpacked is ReadArchive
            &&& unpacked->ReadArchive_0.artifact == unpacking.extraction.rest@[0]
            &&& unpacked->ReadArchive_0.archive@ == unpacking.extraction.generation_dir@.join(
                unpacking.extraction.rest@[0].path@,
            )
        },
        committed == PayloadStep::Inspect(extraction.libraries),
{
}

/// An archive that was read is unpacked as what it decodes to, or else as it
/// lies on disk.
pub proof fn what_an_archive_is_unpacked_as(unpacking: Unpacking, bytes: Vec<u8>, r: PayloadStep)
    requires
        call_ensures(Unpacking::read, (unpacking, ArchiveRead::Bytes(bytes)), r),
    ensures
        r is Unpack,
        r->Unpack_0 == unpacking,
        r->Unpack_1 matches Contents::Tar(content) ==> zstd_decoded(bytes@) == Some(content@),
        zstd_decoded(bytes@) is None ==> r->Unpack_1 is Stream,
{
}

/// Whatever an extraction does not get is told with the place and the cause.
pub proof fn what_an_extraction_complains_of(
    extraction: Extraction,
    unpacking: Unpacking,
    failure: Failure,
    dir_shown: &str,
    cleared: PayloadStep,
    created: PayloadStep,
    unopened: PayloadStep,
    opening: PayloadStep,
    decoding: PayloadStep,
    unpacking_it: PayloadStep,
    committed: PayloadStep,
)
    requires
        call_ensures(Extraction::cleared, (extraction, Err(failure)), cleared),
        call_ensures(Extraction::created, (extraction, Err(failure)), created),
        call_ensures(Unpacking::read, (unpacking, ArchiveRead::Unopened(failure)), unopened),
        call_ensures(Unpacking::unpacked, (unpacking, Err(UnpackFailure::Open(failure))), opening),
        call_ensures(
            Unpacking::unpacked,
            (unpacking, Err(UnpackFailure::Decode(failure))),
            decoding,
        ),
        call_ensures(
            Unpacking::unpacked,
            (unpacking, Err(UnpackFailure::Unpack(failure))),
            unpacking_it,
        ),
        call_ensures(Extraction::committed, (extraction, Err(failure), dir_shown), committed),
    ensures
        ({
            let why = failure.shown@ + ": "@ + failure.cause@;
            &&& cleared is Refused && cleared->Refused_0@ == "could not clear "@ + why
            &&& created is Refused && created->Refused_0@ == "could not create "@ + why
            &&& unopened is Refused && unopened->Refused_0@ == "could not open "@ + why
            &&& opening is Refused && opening->Refused_0@ == "could not open "@ + why
            &&& decoding is Refused && decoding->Refused_0@ == "could not decode "@ + why
            &&& unpacking_it is Refused && unpacking_it->Refused_0@ == "could not unpack "@ + why
            &&& committed is Refused && committed->Refused_0@ == "could not commit "@
                + failure.shown@ + " to "@ + dir_shown@ + ": "@ + failure.cause@
        }),
{
    let why = failure.shown@ + ": "@ + failure.cause@;
    assert("could not clear "@ + failure.shown@ + ": "@ + failure.cause@ == "could not clear "@
        + why);
    assert("could not create "@ + failure.shown@ + ": "@ + failure.cause@ == "could not create "@
        + why);
    assert("could not open "@ + failure.shown@ + ": "@ + failure.cause@ == "could not open "@
        + why);
    assert("could not decode "@ + failure.shown@ + ": "@ + failure.cause@ == "could not decode "@
        + why);
    assert("could not unpack "@ + failure.shown@ + ": "@ + failure.cause@ == "could not unpack "@
        + why);
}

/// A tree loads from its libraries when each is a regular file, and from none
/// of them otherwise.
pub proof fn what_a_tree_loads_from(
    libraries: Vec<TreePath>,
    found: &Vec<Found>,
    r: Result<Vec<TreePath>, String>,
)
    requires
        call_ensures(inspected, (libraries, found), r),
        found@.len() == libraries@.len(),
    ensures
        (forall|i: int| 0 <= i < found@.len() ==> (#[trigger] found@[i]).regular) <==> r is Ok,
        r matches Ok(loadable) ==> loadable == libraries,
        r matches Err(why) ==> exists|i: int|
            0 <= i < found@.len() && !(#[trigger] found@[i]).regular && why@ == found@[i].shown@
                + " is missing from the extracted payload"@,
{
    a_tree_is_refused_for_the_first_missing_library(found@);
}

/// Whether `place` is that of a directory of the store whose name is not live.
pub open spec fn is_retired(
    store: TreePathView,
    live: Seq<Seq<char>>,
    entries: Seq<Entry>,
    place: TreePathView,
) -> bool {
    exists|i: int|
        0 <= i < entries.len() && (#[trigger] entries[i]).is_dir && entries[i].name is Some
            && !live.contains(entries[i].name->0@) && place == store.join(entries[i].name->0@)
}

/// A sweep removes every directory of the store whose name is not live, and
/// nothing else.
pub proof fn what_a_sweep_removes(
    store: &PayloadStore,
    live: &Vec<String>,
    entries: &Vec<Entry>,
    r: Vec<TreePath>,
    place: TreePathView,
)
    requires
        call_ensures(PayloadStore::retain, (store, live, entries), r),
    ensures
        places(r@).contains(place) <==> is_retired(
            store.place(),
            texts(live@),
            entries@,
            place,
        ),
{
    let kept = texts(live@);
    if is_retired(store.place(), kept, entries@, place) {
        let i = choose|i: int|
            0 <= i < entries@.len() && (#[trigger] entries@[i]).is_dir && entries@[i].name is Some
                && !kept.contains(entries@[i].name->0@) && place == store.place().join(
                entries@[i].name->0@,
            );
        a_sweep_keeps_the_live_trees_and_clears_the_rest(store.place(), kept, entries@, i);
    }
    if places(r@).contains(place) {
        a_sweep_removes_entries_alone(store.place(), kept, entries@, place);
    }
}

/// A line that was typed is a command by its first word: `play` takes the
/// second word for an index or a path, whatever files there are.
pub proof fn what_a_typed_line_is(line: &str, files: &Vec<String>, r: Input)
    requires
        call_ensures(parse_line, (line, files), r),
    ensures
        ({
            let said = words(line@);
            &&& said.len() == 0 ==> r is Skip
            &&& said.len() > 1 && said[0] == "play"@ ==> {
                &&& r is Send
                &&& r->Send_0 is Play
                &&& number(said[1]) matches Some(n) ==> n <= usize::MAX && n < files@.len()
                    ==> r->Send_0->Play_0@ == files@[n as int]@
                &&& (number(said[1]) matches Some(n) ==> n > usize::MAX || n >= files@.len())
                    ==> r->Send_0->Play_0@ == said[1]
            }
            &&& said.len() > 0 && said[0] == "stop"@ ==> r is Send && r->Send_0 is Stop
            &&& said.len() > 0 && said[0] == "status"@ ==> r is Send && r->Send_0 is Status
            &&& said.len() > 0 && said[0] == "check"@ ==> r is Send && r->Send_0 is Check
            &&& said.len() > 0 && (said[0] == "quit"@ || said[0] == "exit"@) ==> r is Leave
        }),
{
    let said = words(line@);
    if said.len() > 0 {
        let more = said.skip(1);
        assert(seq![said[0]] + more == said);
        every_command_is_understood(texts(files@), said[0], more);
        assert(texts(files@).len() == files@.len());
        if said.len() > 1 {
            assert(seq![said[0], said[1]] + said.skip(2) == said);
            play_and_a_word_play(texts(files@), said[1], said.skip(2));
        }
    }
}

/// A word picks the file that it is the index of, and is a path otherwise.
pub proof fn what_a_word_picks(files: &Vec<String>, what: &str, r: String)
    requires
        call_ensures(resolve_file, (files, what), r),
    ensures
        number(what@) matches Some(n) ==> n <= usize::MAX && n < files@.len() ==> r@
            == files@[n as int]@,
        (number(what@) matches Some(n) ==> n > usize::MAX || n >= files@.len()) ==> r@ == what@,
{
    assert(texts(files@).len() == files@.len());
}

/// A command line without a default root is refused for that, and an empty one
/// leaves the defaults.
pub proof fn what_a_command_line_starts_from(
    why: String,
    root: TreePath,
    args: &Vec<String>,
    refused: Result<Options, String>,
    r: Result<Options, String>,
)
    requires
        call_ensures(parse_args, (Err(why), args), refused),
        call_ensures(parse_args, (Ok(root), args), r),
    ensures
        refused == Err::<Options, String>(why),
        args@.len() == 0 ==> r is Ok && r->Ok_0.root is Home && r->Ok_0.root->Home_0@ == root@
            && r->Ok_0.interval.secs == 30 && r->Ok_0.interval.nanos == 0 && r->Ok_0.auto_apply
            && r->Ok_0.files@.len() == 0,
        args@.len() == 1 && !is_flag(args@[0]@) ==> r is Ok && r->Ok_0.files@.len() == 1
            && r->Ok_0.files@[0]@ == args@[0]@,
{
    assert(texts(args@).len() == args@.len());
    if r is Ok {
        assert(texts(r->Ok_0.files@).len() == r->Ok_0.files@.len());
    }
    if args@.len() == 0 {
        assert(texts(args@) == Seq::<Seq<char>>::empty());
        the_command_line_may_be_empty(root@);
    }
    if args@.len() == 1 {
        assert(texts(args@) == seq![args@[0]@]);
        the_command_line_may_be_empty(root@);
        every_argument_does_one_thing(unasked(root@), args@[0]@);
        if !is_flag(args@[0]@) {
            assert(texts(r->Ok_0.files@)[0] == args@[0]@);
        }
    }
}

/// The default root is below the home, or below the profile without one, and
/// there is none without either.
pub proof fn what_the_default_root_is(
    home: PathBuf,
    profile: PathBuf,
    other: Option<PathBuf>,
    at_home: Result<TreePath, String>,
    at_profile: Result<TreePath, String>,
    nowhere: Result<TreePath, String>,
)
    requires
        call_ensures(default_root, (Some(home), other), at_home),
        call_ensures(default_root, (None, Some(profile)), at_profile),
        call_ensures(default_root, (None, None), nowhere),
    ensures
        at_home is Ok,
        at_home->Ok_0@ == (TreePathView { base: home, segments: seq![".retrovert-player"@] }),
        at_profile is Ok,
        at_profile->Ok_0@ == (TreePathView { base: profile, segments: seq![".retrovert-player"@] }),
        nowhere is Err,
        nowhere->Err_0@ == "no HOME to place --root under"@,
{
}

/// As many frames are decoded as fit ahead of the device, up to the most that
/// are decoded at once.
pub proof fn what_a_top_up_decodes(buffered: usize, r: Option<u32>)
    requires
        call_ensures(top_up, (buffered,), r),
    ensures
        buffered >= 19_200 ==> r is None,
        buffered < 19_200 ==> r is Some,
        r matches Some(frames) ==> {
            &&& frames <= 4_096
            &&& buffered + frames * 2 <= 19_200
            &&& frames == 4_096 || buffered + (frames + 1) * 2 > 19_200
        },
{
    topping_up_never_overfills(buffered as nat);
}

/// Every command is the host's duty, but a stop, which drops the session; the
/// others leave the player alone.
pub proof fn what_a_worker_does_for_a_command(
    worker: &Worker,
    received: Received,
    backend: &mut PlayerBackend,
    r: Duty,
    live: bool,
)
    requires
        call_ensures(Worker::receive, (worker, received, backend), r),
        call_ensures(PlayerBackend::is_live, (&*final(backend),), live),
    ensures
        received matches Received::Command(Command::Play(path)) ==> r == Duty::Mount(path),
        received == Received::Command(Command::Stop) ==> r is Nothing && !live,
        received == Received::Command(Command::Status) ==> r is Show,
        received == Received::Command(Command::Check) ==> r is Check,
        received == Received::Command(Command::Quit) ==> r is Return,
        received is Disconnected ==> r is Return,
        received is Nothing ==> r is Nothing,
        received != Received::Command(Command::Stop) ==> final(backend)@ == old(backend)@,
{
}

/// A pump finds a song finished when it is, drops it and leaves any other, and
/// then ticks the catalog with the player as it is left.
pub proof fn what_a_worker_pumps(
    worker: &Worker,
    found: Vec<Generation>,
    completed: Option<Generation>,
    catalog: &mut PluginCatalog,
    backend: &mut PlayerBackend,
    r: (bool, Step),
    status: PlaybackStatus,
    live: bool,
)
    requires
        call_ensures(Worker::pump, (worker, found, completed, catalog, backend), r),
        call_ensures(PlayerBackend::status, (&*old(backend),), status),
        call_ensures(PlayerBackend::is_live, (&*final(backend),), live),
    ensures
        r.0 <==> status == PlaybackStatus::Finished,
        r.0 ==> !live,
        !r.0 ==> final(backend)@ == old(backend)@,
        (final(catalog)@, r.1@) == old(catalog)@.tick(found@, completed, live),
{
}

/// A failed render drops the session, and any other leaves the player alone.
pub proof fn what_a_failed_render_does(
    worker: &Worker,
    failed: bool,
    backend: &mut PlayerBackend,
    live: bool,
)
    requires
        call_ensures(Worker::fed, (worker, failed, backend), ()),
        call_ensures(PlayerBackend::is_live, (&*final(backend),), live),
    ensures
        failed ==> !live,
        !failed ==> final(backend)@ == old(backend)@,
{
}

/// A worker announces what is live exactly when it announced something else
/// last, and a second time only once that changed.
pub proof fn what_a_worker_announces(
    worker: &mut Worker,
    catalog: &PluginCatalog,
    r: Option<String>,
    active: Option<&str>,
    fresh: Worker,
)
    requires
        call_ensures(Worker::announce, (worker, catalog), r),
        call_ensures(PluginCatalog::active_generation, (catalog,), active),
        call_ensures(Worker::new, (), fresh),
    ensures
        final(worker)@ == name_of(active),
        r is None <==> old(worker)@ == name_of(active),
        r matches Some(line) ==> line@ == "catalog: active generation is now "@ + (match active {
            Some(id) => id@,
            None => "none"@,
        }),
        fresh@ is None,
{
}

/// Nothing is announced twice: with the same generation live, a second
/// announcement says nothing, and a new worker announces what is live unless
/// nothing is.
pub proof fn nothing_is_announced_twice(
    worker: &mut Worker,
    again: &mut Worker,
    catalog: &PluginCatalog,
    later: &PluginCatalog,
    first: Option<String>,
    second: Option<String>,
    active: Option<&str>,
    later_active: Option<&str>,
    fresh: Worker,
)
    requires
        call_ensures(Worker::new, (), fresh),
        *old(worker) == fresh,
        call_ensures(Worker::announce, (worker, catalog), first),
        *old(again) == *final(worker),
        call_ensures(Worker::announce, (again, later), second),
        call_ensures(PluginCatalog::active_generation, (catalog,), active),
        call_ensures(PluginCatalog::active_generation, (later,), later_active),
    ensures
        first is Some <==> active is Some,
        second is Some <==> name_of(later_active) != name_of(active),
{
}

/// What plays is told with the plugin and the generation that play it.
pub proof fn what_a_playing_line_says(
    path: &str,
    backend: &PlayerBackend,
    catalog: &PluginCatalog,
    r: String,
    name: &str,
    active: Option<&str>,
)
    requires
        call_ensures(playing_line, (path, backend, catalog), r),
        call_ensures(PlayerBackend::plugin_name, (backend,), name),
        call_ensures(PluginCatalog::active_generation, (catalog,), active),
    ensures
        r@ == "playing "@ + path@ + " via "@ + name@ + " (generation "@ + (match active {
            Some(id) => id@,
            None => "none"@,
        }) + ")"@,
{
}

/// A status is as long as there is something to tell, and starts with
/// playback, the catalog and the updater.
pub proof fn what_a_status_shows(
    backend: &PlayerBackend,
    catalog: &PluginCatalog,
    updater: &UpdaterStatus,
    r: Vec<String>,
    history: &[Event],
    i: int,
)
    requires
        call_ensures(status_lines, (backend, catalog, updater), r),
        call_ensures(PluginCatalog::history, (catalog,), history),
    ensures
        ({
            let checked: int = if updater.last_check is Some {
                1
            } else {
                0
            };
            let wrong: int = if updater.last_error is Some {
                1
            } else {
                0
            };
            let told: int = if history@.len() < 5 {
                history@.len() as int
            } else {
                5
            };
            &&& r@.len() == 3 + checked + wrong + told
            &&& 0 <= i < told ==> r@[3 + checked + wrong + i]@ == event_shown(
                history@[history@.len() - 1 - i]@,
            )
        }),
{
    a_status_tells_of_everything(backend@, catalog@, *updater, i);
    let lines = texts(r@);
    assert(lines.len() == r@.len());
    assert(events(history@).len() == history@.len());
    let checked: int = if updater.last_check is Some {
        1
    } else {
        0
    };
    let wrong: int = if updater.last_error is Some {
        1
    } else {
        0
    };
    if 0 <= i < 5 && i < history@.len() {
        assert(lines[3 + checked + wrong + i] == r@[3 + checked + wrong + i]@);
        assert(events(history@)[history@.len() - 1 - i] == history@[history@.len() - 1 - i]@);
    }
}

/// A config keeps cache and trust state beneath its root, checks hourly and
/// downloads by itself; everything else is as it was given.
pub proof fn what_a_config_beneath_a_root_is<W>(
    root: TreePath,
    channel: ChannelConfig,
    embedded_root: Vec<u8>,
    target: String,
    workers: W,
    r: CatalogConfig<W>,
)
    requires
        call_ensures(
            CatalogConfig::<W>::beneath,
            (root, channel, embedded_root, target, workers),
            r,
        ),
    ensures
        r.root == root,
        r.cache_dir@ == root@.join("cache"@),
        r.trust_state_dir@ == root@.join("trust-state"@),
        r.channel == channel,
        r.embedded_root == embedded_root,
        r.target == target,
        r.check_interval.secs == 60 * 60,
        r.check_interval.nanos == 0,
        r.auto_apply,
        r.workers == workers,
{
}

/// A worker's config is that of the development channel beneath its root, with
/// the interval and the consent of the command line.
pub proof fn what_a_worker_is_configured_with<W>(
    options: &Options,
    root: TreePath,
    embedded_root: Vec<u8>,
    target: Option<&str>,
    workers: W,
    r: CatalogConfig<W>,
)
    requires
        call_ensures(worker_config::<W>, (options, root, embedded_root, target, workers), r),
    ensures
        r.root == root,
        r.cache_dir@ == root@.join("cache"@),
        r.trust_state_dir@ == root@.join("trust-state"@),
        r.embedded_root == embedded_root,
        target matches Some(target) ==> r.target@ == target@,
        target is None ==> r.target@ == "linux-x86_64"@,
        r.check_interval == options.interval,
        r.auto_apply == options.auto_apply,
        r.workers == workers,
        r.channel.metadata_base_url@
            == "https://github.com/RetrovertApp/playback_plugins/releases/download/dev/channel-metadata/"@,
        r.channel.artifact_base_url@
            == "https://github.com/RetrovertApp/playback_plugins/releases/download/dev/v{version}/"@,
{
}

} // verus!
