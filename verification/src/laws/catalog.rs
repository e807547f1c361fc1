//! The catalog and its player, over every run of the worker's loop.

use vstd::prelude::*;

use crate::catalog::{
    described, kept, whole, Attempt, CatalogView, CleanUp, Recall, Refused, RefusedView, Step,
    StepView,
};
use crate::extensions::{extension_set, LoadedPlugin};
use crate::generation::{boot_order, called, Generation};
use crate::laws::boot::{a_boot_tries_everything_once, what_is_installed_is_found};
use crate::laws::payload::no_live_tree_is_swept;
use crate::payload::{doomed, Entry};
use crate::player::{playback_count, BackendView, SessionView};
use crate::record::{EventKind, EventView};
use crate::text::{decimal, joined, texts};
use crate::tree::{places, TreePath, TreePathView};

verus! {

/// A catalog, the player it feeds, the step the host is at, and the
/// generation whose libraries the player was last handed, with whether it
/// took them all.
#[verifier::ext_equal]
pub struct System {
    pub catalog: CatalogView,
    pub backend: BackendView,
    pub step: StepView,
    pub resident: Option<(Seq<char>, bool)>,
}

/// One thing the host does, with what came back of it.
pub enum Move {
    /// It pumps the catalog.
    Tick { found: Seq<Generation>, completed: Option<Generation> },
    /// It begins a mount.
    Mount { found: Seq<Generation> },
    /// It made a payload loadable, or could not.
    Extracted { result: Result<Seq<TreePathView>, Seq<char>>, at: i64 },
    /// It loaded a set of libraries.
    Swapped { plugins: Seq<LoadedPlugin>, errors: Seq<Seq<char>>, at: i64 },
    /// It listed what is installed.
    Recalled { found: Seq<Generation>, at: i64 },
    /// It did what needs no answer.
    Settled,
    /// It mounted, rendered, paused or closed a session.
    Played { session: Option<SessionView> },
}

/// A step hides nothing of what the host is to do: the generation, what it is
/// loaded from, what it stands in for, and what stays.
pub proof fn a_step_hides_nothing(
    attempt: Attempt,
    libraries: Vec<TreePath>,
    recall: Recall,
    clean_up: CleanUp,
    refused: Refused,
)
    ensures
        Step::Idle@ is Idle,
        Step::Unload@ is Unload,
        Step::Persist@ is Persist,
        Step::Extract(attempt)@ is Extract,
        Step::Extract(attempt)@->Extract_generation == attempt.generation,
        Step::Extract(attempt)@->Extract_instead_of == attempt.stead(),
        Step::Load(attempt, libraries)@ is Load,
        Step::Load(attempt, libraries)@->Load_generation == attempt.generation,
        Step::Load(attempt, libraries)@->Load_instead_of == attempt.stead(),
        Step::Load(attempt, libraries)@->libraries == places(libraries@),
        Step::Recall(recall)@ is Recall,
        Step::Recall(recall)@->refused == recall.refused@,
        Step::Recall(recall)@->previous == recall.previous@,
        Step::CleanUp(clean_up)@ is CleanUp,
        Step::CleanUp(clean_up)@->live == texts(clean_up.live@),
        Step::CleanUp(clean_up)@->digests == texts(clean_up.digests@),
        attempt.instead_of is None <==> attempt.stead() is None,
        attempt.instead_of matches Some(refused) ==> attempt.stead() == Some(refused@),
        refused@.id == refused.id@,
        refused.detail is None <==> refused@.detail is None,
        refused.detail matches Some(detail) ==> refused@.detail == Some(detail@),
{
}

/// The system after `m`. A move that the step at hand does not ask for
/// changes nothing.
pub open spec fn moved(s: System, m: Move) -> System {
    match (m, s.step) {
        (Move::Tick { found, completed }, StepView::Idle) => {
            let (catalog, step) = s.catalog.tick(found, completed, s.backend.session is Some);
            System { catalog, step, ..s }
        },
        (Move::Mount { found }, StepView::Idle) => {
            let (catalog, step) = s.catalog.boot_once(found).activate();
            let backend = if s.catalog.boot_once(found).pending is Some {
                s.backend.closed()
            } else {
                s.backend
            };
            System { catalog, step, backend, ..s }
        },
        (
            Move::Extracted { result, at },
            StepView::Extract { generation, instead_of },
        ) => {
            let (catalog, step) = s.catalog.extracted(generation, instead_of, result, at);
            System { catalog, step, ..s }
        },
        (
            Move::Swapped { plugins, errors, at },
            StepView::Load { generation, instead_of, .. },
        ) => {
            let loaded = playback_count(plugins);
            let (catalog, step) = s.catalog.swapped(generation, instead_of, loaded, errors, at);
            System {
                catalog,
                step,
                backend: s.backend.holding(plugins),
                resident: Some(
                    (
                        generation.id@,
                        whole(loaded, errors.len(), generation.artifacts@.len()),
                    ),
                ),
            }
        },
        (Move::Recalled { found, at }, StepView::Recall { refused, previous }) => {
            let (catalog, step) = s.catalog.recalled(refused, previous, found, at);
            System { catalog, step, ..s }
        },
        (Move::Settled, StepView::Unload) => System {
            step: StepView::Idle,
            backend: s.backend.holding(Seq::empty()),
            resident: None,
            ..s
        },
        (Move::Settled, StepView::Persist) => System { step: StepView::Idle, ..s },
        (Move::Settled, StepView::CleanUp { .. }) => System { step: StepView::Idle, ..s },
        (Move::Played { session }, StepView::Idle) => System {
            backend: BackendView { session, ..s.backend },
            ..s
        },
        _ => s,
    }
}

/// The system after a run of moves.
pub open spec fn after(s: System, run: Seq<Move>) -> System
    decreases run.len(),
{
    if run.len() == 0 {
        s
    } else {
        moved(after(s, run.drop_last()), run.last())
    }
}

/// A new catalog over a player that holds no plugins.
pub open spec fn fresh(s: System) -> bool {
    &&& s.catalog.pending is None
    &&& s.catalog.boot_queue.len() == 0
    &&& s.catalog.loaded is None
    &&& !s.catalog.booted
    &&& s.backend.plugins.len() == 0
    &&& s.backend.extensions == extension_set(s.backend.plugins)
    &&& s.backend.session is None
    &&& s.step is Idle
    &&& s.resident is None
}

/// The generation that the catalog says is live, as one that loaded whole.
pub open spec fn named(s: System) -> Option<(Seq<char>, bool)> {
    match s.catalog.loaded {
        Some(id) => Some((id, true)),
        None => None,
    }
}

/// What holds at every moment of a run.
pub open spec fn sound(s: System) -> bool {
    &&& !(s.step is Idle) ==> s.backend.session is None
    &&& s.backend.extensions == extension_set(s.backend.plugins)
    &&& s.resident is None ==> s.backend.plugins.len() == 0
    &&& s.catalog.loaded is Some ==> s.catalog.record.active == s.catalog.loaded
    &&& match s.step {
        StepView::Idle => s.resident == named(s),
        StepView::Persist => s.resident == named(s),
        StepView::CleanUp { live, .. } => {
            &&& s.resident == named(s)
            &&& s.catalog.loaded is Some
            &&& live == kept(s.catalog.loaded->0, s.catalog.record)
        },
        StepView::Extract { generation, instead_of } => match instead_of {
            None => s.resident == named(s) && s.catalog.loaded != Some(generation.id@),
            Some(_) => s.catalog.loaded == Some(generation.id@),
        },
        StepView::Load { generation, instead_of, .. } => match instead_of {
            None => s.resident == named(s) && s.catalog.loaded != Some(generation.id@),
            Some(_) => s.catalog.loaded == Some(generation.id@),
        },
        StepView::Recall { previous, .. } => s.catalog.loaded == Some(previous),
        StepView::Unload => s.catalog.loaded is None,
    }
}

proof fn sound_is_kept(s: System, m: Move)
    requires
        sound(s),
    ensures
        sound(moved(s, m)),
{
    match (m, s.step) {
        (Move::Recalled { found, at }, StepView::Recall { refused, previous }) => {
            what_is_installed_is_found(found, previous);
        },
        _ => {},
    }
}

/// Every moment of every run from a new catalog is sound.
pub proof fn every_run_is_sound(s: System, run: Seq<Move>)
    requires
        fresh(s),
    ensures
        sound(after(s, run)),
    decreases run.len(),
{
    if run.len() > 0 {
        every_run_is_sound(s, run.drop_last());
        sound_is_kept(after(s, run.drop_last()), run.last());
    }
}

/// Nothing loads, and nothing is dropped, while a song is mounted: the
/// catalog is at rest then.
pub proof fn nothing_loads_while_a_song_is_mounted(s: System, run: Seq<Move>)
    requires
        fresh(s),
    ensures
        after(s, run).backend.session is Some ==> after(s, run).step is Idle,
{
    every_run_is_sound(s, run);
}

/// An active song finishes on the generation it started with: as long as a
/// session is mounted, whatever the host does leaves the live generation, the
/// player's set and its extension index alone.
pub proof fn a_song_keeps_its_generation(s: System, run: Seq<Move>, m: Move)
    requires
        fresh(s),
        after(s, run).backend.session is Some,
        moved(after(s, run), m).backend.session is Some,
    ensures
        moved(after(s, run), m).resident == after(s, run).resident,
        moved(after(s, run), m).catalog.loaded == after(s, run).catalog.loaded,
        moved(after(s, run), m).backend.plugins == after(s, run).backend.plugins,
        moved(after(s, run), m).backend.extensions == after(s, run).backend.extensions,
{
    every_run_is_sound(s, run);
}

/// Activation is all or nothing: whenever the catalog is at rest, the player
/// holds the set of the generation that the catalog names as live, loaded
/// whole, or no plugin at all. A refused set is never left for a mount.
pub proof fn at_rest_the_live_set_is_the_named_one(s: System, run: Seq<Move>)
    requires
        fresh(s),
        after(s, run).step is Idle,
    ensures
        match after(s, run).catalog.loaded {
            Some(id) => after(s, run).resident == Some((id, true)),
            None => after(s, run).resident is None && after(s, run).backend.plugins.len() == 0,
        },
{
    every_run_is_sound(s, run);
}

/// The decoder set and the extension index are replaced together: at every
/// moment the index is that of the set.
pub proof fn the_index_is_that_of_the_set(s: System, run: Seq<Move>)
    requires
        fresh(s),
    ensures
        after(s, run).backend.extensions == extension_set(after(s, run).backend.plugins),
{
    every_run_is_sound(s, run);
}

/// The record is rewritten on every event: a move that changes it leaves the
/// host at a step that stores it, and nothing else changes it before that.
pub proof fn every_event_is_stored(s: System, m: Move)
    ensures
        moved(s, m).catalog.record != s.catalog.record ==> {
            ||| moved(s, m).step is Recall
            ||| moved(s, m).step is Unload
            ||| moved(s, m).step is Persist
            ||| moved(s, m).step is CleanUp
        },
        s.step is Unload || s.step is Persist || s.step is CleanUp ==> moved(s, m).catalog
            == s.catalog,
{
}

/// A boot can re-probe what was running: whatever is live is what the record
/// names as active.
pub proof fn the_record_names_what_is_live(s: System, run: Seq<Move>)
    requires
        fresh(s),
        after(s, run).catalog.loaded is Some,
    ensures
        after(s, run).catalog.record.active == after(s, run).catalog.loaded,
{
    every_run_is_sound(s, run);
}

/// Retention keeps the live generation and the one the record pins behind
/// it, and nothing else.
pub proof fn clean_up_keeps_the_live_and_the_previous(s: System, run: Seq<Move>, id: Seq<char>)
    requires
        fresh(s),
        after(s, run).step is CleanUp,
    ensures
        after(s, run).step->live.contains(id) <==> (after(s, run).catalog.loaded == Some(id)
            || after(s, run).catalog.record.previous == Some(id)),
{
    every_run_is_sound(s, run);
    let now = after(s, run);
    let live = now.step->live;
    assert(live[0] == now.catalog.loaded->0);
    if now.catalog.record.previous is Some {
        assert(live[1] == now.catalog.record.previous->0);
    }
}

/// The sweep that follows an activation spares the trees of the live
/// generation and of the one the record pins behind it.
pub proof fn the_sweep_spares_the_live_and_the_previous(
    s: System,
    run: Seq<Move>,
    payloads: TreePathView,
    entries: Seq<Entry>,
    id: Seq<char>,
)
    requires
        fresh(s),
        after(s, run).step is CleanUp,
        after(s, run).catalog.loaded == Some(id) || after(s, run).catalog.record.previous == Some(
            id,
        ),
    ensures
        !doomed(payloads, after(s, run).step->live, entries).contains(payloads.join(id)),
{
    clean_up_keeps_the_live_and_the_previous(s, run, id);
    no_live_tree_is_swept(payloads, after(s, run).step->live, entries, id);
}

/// The set to fall back to stays on disk until a newer one went live: when
/// `generation` takes over from the live generation, both are kept.
pub proof fn taking_over_keeps_the_set_to_fall_back_to(
    catalog: CatalogView,
    generation: Generation,
    at: i64,
)
    requires
        catalog.loaded is Some,
        catalog.record.active == catalog.loaded,
        catalog.loaded != Some(generation.id@),
    ensures
        catalog.went_live(generation, at).1->live == seq![generation.id@, catalog.loaded->0],
{
}

/// A completed generation waits as long as a session is mounted, and a newer
/// one supersedes it.
pub proof fn completions_wait_and_supersede(
    catalog: CatalogView,
    found: Seq<Generation>,
    first: Generation,
    second: Generation,
)
    requires
        catalog.booted,
    ensures
        catalog.tick(found, Some(first), true).1 is Idle,
        catalog.tick(found, Some(first), true).0.pending == Some(first),
        catalog.tick(found, Some(first), true).0.tick(found, Some(second), true).1 is Idle,
        catalog.tick(found, Some(first), true).0.tick(found, Some(second), true).0 == catalog.tick(
            found,
            Some(second),
            true,
        ).0,
        catalog.tick(found, None, true).0 == catalog,
{
}

/// A generation that the updater completed is never lost: with no session
/// mounted it is tried at once, whether or not anything is loaded, unless it
/// is the live one, and with a session mounted it waits.
pub proof fn a_completed_generation_is_tried_at_once_or_waits(
    catalog: CatalogView,
    found: Seq<Generation>,
    generation: Generation,
)
    ensures
        catalog.loaded != Some(generation.id@) ==> catalog.tick(found, Some(generation), false).1
            == (StepView::Extract { generation, instead_of: None }),
        catalog.loaded == Some(generation.id@) ==> catalog.tick(
            found,
            Some(generation),
            false,
        ).1 is Idle,
        catalog.tick(found, Some(generation), false).0.pending is None,
        catalog.tick(found, Some(generation), true).1 is Idle,
        catalog.tick(found, Some(generation), true).0.pending == Some(generation),
{
}

/// The generation that a tick or a mount has to try: the one completed last,
/// or else the one that waits, or else, at the first look at what was found,
/// the first that a boot tries.
pub open spec fn due(
    catalog: CatalogView,
    found: Seq<Generation>,
    completed: Option<Generation>,
) -> Option<Generation> {
    if completed is Some {
        completed
    } else if catalog.booted {
        catalog.pending
    } else if found.len() > 0 {
        Some(boot_order(found, catalog.record.active).last())
    } else {
        None
    }
}

proof fn a_boot_order_is_as_long(found: Seq<Generation>, active: Option<Seq<char>>)
    ensures
        boot_order(found, active).len() == found.len(),
{
    broadcast use vstd::seq_lib::group_to_multiset_ensures;

    a_boot_tries_everything_once(found, active);
    assert(boot_order(found, active).len() == boot_order(found, active).to_multiset().len());
    assert(found.len() == found.to_multiset().len());
}

/// A tick with nothing mounted tries what is due, and nothing else; with a
/// session mounted it keeps what is due for later.
pub proof fn a_tick_tries_what_is_due(
    catalog: CatalogView,
    found: Seq<Generation>,
    completed: Option<Generation>,
)
    ensures
        match due(catalog, found, completed) {
            None => {
                &&& catalog.tick(found, completed, false).1 is Idle
                &&& catalog.tick(found, completed, true).1 is Idle
                &&& catalog.tick(found, completed, true).0.pending is None
            },
            Some(generation) => {
                &&& catalog.loaded != Some(generation.id@) ==> catalog.tick(
                    found,
                    completed,
                    false,
                ).1 == (StepView::Extract { generation, instead_of: None })
                &&& catalog.loaded == Some(generation.id@) ==> catalog.tick(
                    found,
                    completed,
                    false,
                ).1 is Idle
                &&& catalog.tick(found, completed, true).1 is Idle
                &&& catalog.tick(found, completed, true).0.pending == Some(generation)
            },
        },
        catalog.tick(found, completed, false).0.pending is None,
{
    a_boot_order_is_as_long(found, catalog.record.active);
}

/// A tick changes neither the record nor what is live, and the disk was looked
/// at after it. The candidates of a boot stay, but for the one that is taken,
/// unless the live generation is what is due.
pub proof fn a_tick_keeps_everything_else(
    catalog: CatalogView,
    found: Seq<Generation>,
    completed: Option<Generation>,
    live: bool,
)
    ensures
        ({
            let now = catalog.tick(found, completed, live).0;
            let order = boot_order(found, catalog.record.active);
            let done = !live && due(catalog, found, completed) is Some && catalog.loaded == Some(
                due(catalog, found, completed)->0.id@,
            );
            &&& now.booted
            &&& now.record == catalog.record
            &&& now.loaded == catalog.loaded
            &&& done ==> now.boot_queue.len() == 0
            &&& !done && catalog.booted ==> now.boot_queue == catalog.boot_queue
            &&& !done && !catalog.booted && found.len() > 0 ==> now.boot_queue == order.drop_last()
            &&& !done && found.len() == 0 && !catalog.booted ==> now.boot_queue.len() == 0
        }),
{
    a_boot_order_is_as_long(found, catalog.record.active);
}

/// A mount first tries what a tick with nothing mounted would, and drops the
/// session exactly when there is something to try.
pub proof fn a_mount_tries_what_is_due(s: System, found: Seq<Generation>)
    requires
        s.step is Idle,
    ensures
        ({
            let done = moved(s, Move::Mount { found });
            let idle = s.catalog.tick(found, None, false);
            &&& done.catalog == idle.0
            &&& done.step == idle.1
            &&& due(s.catalog, found, None) is Some ==> done.backend == s.backend.closed()
            &&& due(s.catalog, found, None) is None ==> done.backend == s.backend
            &&& done.resident == s.resident
        }),
        s.catalog.boot_once(found).pending == due(s.catalog, found, None),
        s.catalog.boot_once(found).activate() == s.catalog.tick(found, None, false),
{
    a_boot_order_is_as_long(found, s.catalog.record.active);
}

/// A pending generation is tried at the first boundary: by a tick once no
/// session is mounted, and by a mount, which drops the session first. One
/// that is live already is not loaded again.
pub proof fn a_pending_generation_is_tried_at_the_boundary(
    s: System,
    found: Seq<Generation>,
    generation: Generation,
)
    requires
        s.step is Idle,
        s.catalog.booted,
        s.catalog.pending == Some(generation),
    ensures
        moved(s, Move::Mount { found }).backend.session is None,
        ({
            let tried = if s.catalog.loaded == Some(generation.id@) {
                StepView::Idle
            } else {
                StepView::Extract { generation, instead_of: None }
            };
            &&& moved(s, Move::Mount { found }).step == tried
            &&& s.backend.session is None ==> moved(
                s,
                Move::Tick { found, completed: None },
            ).step == tried
        }),
{
}

/// A tick at rest with nothing due changes nothing.
pub proof fn an_idle_tick_changes_nothing(catalog: CatalogView, found: Seq<Generation>, live: bool)
    requires
        catalog.booted,
        catalog.pending is None,
    ensures
        catalog.tick(found, None, live) == (catalog, StepView::Idle),
{
}

/// A set is whole when every plugin of the generation loaded and no path was
/// rejected.
pub proof fn a_set_is_whole_when_everything_loaded(loaded: nat, errors: nat, expected: nat)
    ensures
        loaded == expected && errors == 0 ==> whole(loaded, errors, expected),
        loaded != expected || errors > 0 ==> !whole(loaded, errors, expected),
{
}

/// A refusal tells how many of how many plugins loaded, and then every
/// rejected path.
pub proof fn a_refusal_tells_what_was_rejected(
    loaded: nat,
    expected: nat,
    errors: Seq<Seq<char>>,
)
    ensures
        described(loaded, Seq::empty(), expected) == decimal(loaded) + " of "@ + decimal(expected)
            + " plugins loaded"@,
        errors.len() > 0 ==> described(loaded, errors, expected) == described(
            loaded,
            Seq::empty(),
            expected,
        ) + ": "@ + joined(errors, "; "@),
{
}

/// A generation that extracted is loaded from exactly the libraries it
/// extracted to, whether for the first time or to put it back.
pub proof fn what_extracted_is_loaded(
    catalog: CatalogView,
    generation: Generation,
    instead_of: Option<RefusedView>,
    libraries: Seq<TreePathView>,
    at: i64,
)
    ensures
        catalog.extracted(generation, instead_of, Ok(libraries), at) == (
            catalog,
            StepView::Load { generation, instead_of, libraries },
        ),
{
}

/// A generation of which every plugin loaded goes live: it is what is loaded
/// and what the record names as active, no boot candidate is left, and of its
/// archives every one can be let go of.
pub proof fn a_set_that_loads_whole_goes_live(
    catalog: CatalogView,
    generation: Generation,
    loaded: nat,
    at: i64,
)
    requires
        loaded == generation.artifacts@.len(),
    ensures
        ({
            let (now, step) = catalog.swapped(generation, None, loaded, Seq::empty(), at);
            &&& now.loaded == Some(generation.id@)
            &&& now.record == catalog.record.activated(generation.id@, at)
            &&& now.record.active == Some(generation.id@)
            &&& now.boot_queue.len() == 0
            &&& now.pending == catalog.pending
            &&& now.booted == catalog.booted
            &&& step is CleanUp
            &&& step->live == (match now.record.previous {
                Some(previous) => seq![generation.id@, previous],
                None => seq![generation.id@],
            })
            &&& step->digests.len() == generation.artifacts@.len()
            &&& forall|i: int|
                0 <= i < generation.artifacts@.len() ==> #[trigger] step->digests[i]
                    == generation.artifacts@[i].sha256@
        }),
{
}

/// A set that does not load whole while another was live changes nothing of
/// the catalog: the one that was live is to be put back, and why the set was
/// refused is carried along.
pub proof fn a_refused_set_recalls_what_was_live(
    catalog: CatalogView,
    generation: Generation,
    previous: Seq<char>,
    loaded: nat,
    errors: Seq<Seq<char>>,
    at: i64,
)
    requires
        loaded != generation.artifacts@.len() || errors.len() > 0,
        catalog.loaded == Some(previous),
    ensures
        catalog.swapped(generation, None, loaded, errors, at) == (
            catalog,
            StepView::Recall {
                refused: RefusedView {
                    id: generation.id@,
                    detail: Some(described(loaded, errors, generation.artifacts@.len())),
                },
                previous,
            },
        ),
{
}

/// A generation to put back is taken from what is installed, and from there
/// loaded in the stead of the refused one; once it loaded whole, that is
/// recorded and nothing else changes.
pub proof fn what_was_live_is_put_back(
    catalog: CatalogView,
    refused: RefusedView,
    found: Seq<Generation>,
    previous: Generation,
    at: i64,
)
    requires
        called(found, previous.id@) == Some(previous),
    ensures
        catalog.recalled(refused, previous.id@, found, at) == (
            catalog,
            StepView::Extract { generation: previous, instead_of: Some(refused) },
        ),
        catalog.swapped(
            previous,
            Some(refused),
            previous.artifacts@.len(),
            Seq::empty(),
            at,
        ) == (
            CatalogView {
                record: catalog.record.fell_back(
                    refused.id,
                    previous.id@,
                    "the previous set was reloaded"@,
                    at,
                ),
                ..catalog
            },
            StepView::Persist,
        ),
{
}

/// When what was live will not come back over a generation that did not
/// extract, which is on record, that alone is recorded and nothing is loaded.
pub proof fn a_torn_update_with_nothing_to_reload_is_recorded_once(
    catalog: CatalogView,
    refused: Seq<char>,
    found: Seq<Generation>,
    previous: Generation,
    failure: Seq<char>,
    loaded: nat,
    errors: Seq<Seq<char>>,
    at: i64,
)
    requires
        called(found, previous.id@) is None,
        loaded != previous.artifacts@.len() || errors.len() > 0,
    ensures
        ({
            let update = RefusedView { id: refused, detail: None };
            let record = catalog.record.probe_failed(
                previous.id@,
                "the previous generation would not reload"@,
                at,
            );
            let given_up = (CatalogView { record, loaded: None, ..catalog }, StepView::Unload);
            &&& catalog.recalled(update, previous.id@, found, at) == given_up
            &&& catalog.extracted(previous, Some(update), Err(failure), at) == given_up
            &&& catalog.swapped(previous, Some(update), loaded, errors, at) == given_up
        }),
{
}

/// The live generation is the only thing an activation or a recovery that
/// gave up changes: it becomes the generation that loaded whole, or none.
pub proof fn only_a_whole_set_goes_live(s: System, run: Seq<Move>, m: Move)
    requires
        fresh(s),
    ensures
        moved(after(s, run), m).catalog.loaded != after(s, run).catalog.loaded ==> {
            ||| moved(after(s, run), m).catalog.loaded is None
            ||| moved(after(s, run), m).resident == Some(
                (moved(after(s, run), m).catalog.loaded->0, true),
            )
        },
{
    every_run_is_sound(s, run);
    sound_is_kept(after(s, run), m);
}

/// The moves by which a host tries `generation` and finds that it does not
/// load whole, at the times `ats`.
pub open spec fn refusal(
    found: Seq<Generation>,
    generation: Generation,
    libraries: Seq<TreePathView>,
    plugins: Seq<LoadedPlugin>,
    errors: Seq<Seq<char>>,
    ats: (i64, i64),
) -> Seq<Move> {
    seq![
        Move::Tick { found, completed: Some(generation) },
        Move::Extracted { result: Ok(libraries), at: ats.0 },
        Move::Swapped { plugins, errors, at: ats.1 },
    ]
}

/// The moves by which a host reloads what was live before, at the times
/// `ats`.
pub open spec fn restoration(
    found: Seq<Generation>,
    libraries: Seq<TreePathView>,
    plugins: Seq<LoadedPlugin>,
    ats: (i64, i64, i64),
) -> Seq<Move> {
    seq![
        Move::Recalled { found, at: ats.0 },
        Move::Extracted { result: Ok(libraries), at: ats.1 },
        Move::Swapped { plugins, errors: Seq::empty(), at: ats.2 },
        Move::Settled,
    ]
}

proof fn one_more(s: System, run: Seq<Move>, n: int)
    requires
        0 <= n < run.len(),
    ensures
        after(s, run.take(n + 1)) == moved(after(s, run.take(n)), run[n]),
{
    assert(run.take(n + 1).drop_last() == run.take(n));
}

proof fn one_run_after_another(s: System, first: Seq<Move>, second: Seq<Move>)
    ensures
        after(s, first + second) == after(after(s, first), second),
    decreases second.len(),
{
    if second.len() == 0 {
        assert(first + second == first);
    } else {
        one_run_after_another(s, first, second.drop_last());
        assert((first + second).drop_last() == first + second.drop_last());
        assert((first + second).last() == second.last());
    }
}

proof fn a_refused_update_is_recalled_from(
    s: System,
    found: Seq<Generation>,
    generation: Generation,
    libraries: Seq<TreePathView>,
    plugins: Seq<LoadedPlugin>,
    errors: Seq<Seq<char>>,
    ats: (i64, i64),
)
    requires
        s.step is Idle,
        s.backend.session is None,
        s.catalog.booted,
        s.catalog.loaded is Some,
        s.catalog.loaded != Some(generation.id@),
        !whole(playback_count(plugins), errors.len(), generation.artifacts@.len()),
    ensures
        after(s, refusal(found, generation, libraries, plugins, errors, ats)) == (System {
            catalog: CatalogView {
                pending: None,
                ..s.catalog
            },
            backend: s.backend.holding(plugins),
            step: StepView::Recall {
                refused: RefusedView {
                    id: generation.id@,
                    detail: Some(
                        described(playback_count(plugins), errors, generation.artifacts@.len()),
                    ),
                },
                previous: s.catalog.loaded->0,
            },
            resident: Some((generation.id@, false)),
        }),
{
    let run = refusal(found, generation, libraries, plugins, errors, ats);
    assert(run.take(0) == Seq::<Move>::empty());
    one_more(s, run, 0);
    one_more(s, run, 1);
    one_more(s, run, 2);
    assert(run.take(3) == run);
}

proof fn a_recalled_generation_is_live_again(
    s: System,
    found: Seq<Generation>,
    libraries: Seq<TreePathView>,
    plugins: Seq<LoadedPlugin>,
    ats: (i64, i64, i64),
)
    requires
        s.step is Recall,
        called(found, s.step->previous) is Some,
        whole(
            playback_count(plugins),
            0,
            called(found, s.step->previous)->0.artifacts@.len(),
        ),
    ensures
        after(s, restoration(found, libraries, plugins, ats)) == (System {
            catalog: CatalogView {
                record: s.catalog.record.fell_back(
                    s.step->refused.id,
                    s.step->previous,
                    "the previous set was reloaded"@,
                    ats.2,
                ),
                ..s.catalog
            },
            backend: s.backend.holding(plugins),
            step: StepView::Idle,
            resident: Some((s.step->previous, true)),
        }),
{
    let run = restoration(found, libraries, plugins, ats);
    what_is_installed_is_found(found, s.step->previous);
    assert(run.take(0) == Seq::<Move>::empty());
    one_more(s, run, 0);
    one_more(s, run, 1);
    one_more(s, run, 2);
    one_more(s, run, 3);
    assert(run.take(4) == run);
}

/// A refused update reloads the previous generation: with nothing mounted, a
/// completed generation that does not load whole leaves the one that was live
/// before live again, and all that the record gains is the fall-back.
pub proof fn a_refused_update_reloads_the_previous_generation(
    s: System,
    found: Seq<Generation>,
    generation: Generation,
    libraries: Seq<TreePathView>,
    plugins: Seq<LoadedPlugin>,
    errors: Seq<Seq<char>>,
    refused_at: (i64, i64),
    previous_libraries: Seq<TreePathView>,
    previous_plugins: Seq<LoadedPlugin>,
    restored_at: (i64, i64, i64),
)
    requires
        sound(s),
        s.step is Idle,
        s.backend.session is None,
        s.catalog.booted,
        s.catalog.loaded is Some,
        s.catalog.loaded != Some(generation.id@),
        !whole(playback_count(plugins), errors.len(), generation.artifacts@.len()),
        called(found, s.catalog.loaded->0) is Some,
        whole(
            playback_count(previous_plugins),
            0,
            called(found, s.catalog.loaded->0)->0.artifacts@.len(),
        ),
    ensures
        ({
            let done = after(
                s,
                refusal(found, generation, libraries, plugins, errors, refused_at)
                    + restoration(found, previous_libraries, previous_plugins, restored_at),
            );
            &&& done.step is Idle
            &&& done.catalog.loaded == s.catalog.loaded
            &&& done.resident == s.resident
            &&& done.backend.plugins == previous_plugins
            &&& done.catalog.pending is None
            &&& done.catalog.record == s.catalog.record.fell_back(
                generation.id@,
                s.catalog.loaded->0,
                "the previous set was reloaded"@,
                restored_at.2,
            )
        }),
{
    let refused = refusal(found, generation, libraries, plugins, errors, refused_at);
    let restored = restoration(found, previous_libraries, previous_plugins, restored_at);
    one_run_after_another(s, refused, restored);
    a_refused_update_is_recalled_from(
        s,
        found,
        generation,
        libraries,
        plugins,
        errors,
        refused_at,
    );
    a_recalled_generation_is_live_again(
        after(s, refused),
        found,
        previous_libraries,
        previous_plugins,
        restored_at,
    );
}

/// A refused update over which the previous generation will not reload, for
/// it is gone, does not extract or does not load whole, leaves nothing loaded:
/// both are recorded, the refused one first.
pub proof fn a_refused_update_with_nothing_to_reload_is_recorded(
    catalog: CatalogView,
    refused: Seq<char>,
    detail: Seq<char>,
    found: Seq<Generation>,
    previous: Generation,
    failure: Seq<char>,
    loaded: nat,
    errors: Seq<Seq<char>>,
    at: i64,
)
    requires
        called(found, previous.id@) is None,
        !whole(loaded, errors.len(), previous.artifacts@.len()),
    ensures
        ({
            let update = RefusedView { id: refused, detail: Some(detail) };
            let record = catalog.record.probe_failed(refused, detail, at).probe_failed(
                previous.id@,
                "the previous generation would not reload"@,
                at,
            );
            let given_up = (CatalogView { record, loaded: None, ..catalog }, StepView::Unload);
            &&& catalog.recalled(update, previous.id@, found, at) == given_up
            &&& catalog.extracted(previous, Some(update), Err(failure), at) == given_up
            &&& catalog.swapped(previous, Some(update), loaded, errors, at) == given_up
        }),
{
}

/// A failed probe is recorded only when nothing could be reloaded: whatever
/// adds one to the record leaves nothing live, and the plugins to be dropped.
pub proof fn a_failed_probe_leaves_nothing_live(s: System, m: Move)
    requires
        moved(s, m).catalog.record != s.catalog.record,
        moved(s, m).catalog.record.history.last().what == EventKind::ProbeFailed,
    ensures
        moved(s, m).catalog.loaded is None,
        moved(s, m).step is Unload,
{
}

/// A boot generation that refuses to load falls back to the next newest:
/// with nothing live, a set that does not load whole is dropped again, its
/// refusal recorded, and the next candidate pending.
pub proof fn a_refused_boot_generation_gives_way_to_the_next(
    catalog: CatalogView,
    generation: Generation,
    loaded: nat,
    errors: Seq<Seq<char>>,
    at: i64,
)
    requires
        catalog.loaded is None,
        !whole(loaded, errors.len(), generation.artifacts@.len()),
    ensures
        catalog.swapped(generation, None, loaded, errors, at).1 is Unload,
        ({
            let next = catalog.swapped(generation, None, loaded, errors, at).0;
            &&& next.loaded is None
            &&& next.booted == catalog.booted
            &&& next.record == catalog.record.probe_failed(
                generation.id@,
                described(loaded, errors, generation.artifacts@.len()),
                at,
            )
            &&& next.pending == (if catalog.boot_queue.len() > 0 {
                Some(catalog.boot_queue.last())
            } else {
                None
            })
            &&& next.boot_queue == (if catalog.boot_queue.len() > 0 {
                catalog.boot_queue.drop_last()
            } else {
                catalog.boot_queue
            })
            &&& next.record.history.last() == (EventView {
                what: EventKind::ProbeFailed,
                generation: generation.id@,
                detail: Some(described(loaded, errors, generation.artifacts@.len())),
                at_unix_ms: at,
            })
        }),
{
}

/// How a boot candidate was refused, and when.
pub enum Refusal {
    /// Its archives would not extract.
    Extract { detail: Seq<char>, at: i64 },
    /// Its set did not load whole.
    Load { loaded: nat, errors: Seq<Seq<char>>, at: i64 },
}

/// The catalog once its pending generation was tried and refused.
pub open spec fn tried(catalog: CatalogView, refusal: Refusal) -> CatalogView {
    match catalog.pending {
        None => catalog,
        Some(generation) => {
            let trying = catalog.activate().0;
            match refusal {
                Refusal::Extract { detail, at } => trying.extracted(
                    generation,
                    None,
                    Err(detail),
                    at,
                ).0,
                Refusal::Load { loaded, errors, at } => trying.swapped(
                    generation,
                    None,
                    loaded,
                    errors,
                    at,
                ).0,
            }
        },
    }
}

/// The catalog once one boot candidate after the other was refused.
pub open spec fn all_tried(catalog: CatalogView, refusals: Seq<Refusal>) -> CatalogView
    decreases refusals.len(),
{
    if refusals.len() == 0 {
        catalog
    } else {
        tried(all_tried(catalog, refusals.drop_last()), refusals.last())
    }
}

/// Whether `refusal` refuses `generation`: a set that loads whole is not
/// refused.
pub open spec fn refuses(refusal: Refusal, generation: Generation) -> bool {
    match refusal {
        Refusal::Extract { .. } => true,
        Refusal::Load { loaded, errors, .. } => !whole(
            loaded,
            errors.len(),
            generation.artifacts@.len(),
        ),
    }
}

/// A boot falls back to the newest generation that loads clean: the
/// candidates are tried from the end of the boot order, one at a time, and as
/// long as each is refused nothing is live and the next one is pending, until
/// none is left.
pub proof fn a_boot_works_through_its_candidates(
    catalog: CatalogView,
    found: Seq<Generation>,
    refusals: Seq<Refusal>,
)
    requires
        !catalog.booted,
        catalog.loaded is None,
        refusals.len() <= found.len(),
        forall|i: int|
            0 <= i < refusals.len() ==> refuses(
                #[trigger] refusals[i],
                boot_order(found, catalog.record.active)[found.len() - 1 - i],
            ),
    ensures
        ({
            let order = boot_order(found, catalog.record.active);
            let left = found.len() - refusals.len();
            let now = all_tried(catalog.boot_once(found), refusals);
            &&& order.len() == found.len()
            &&& now.booted
            &&& now.loaded is None
            &&& left > 0 ==> now.pending == Some(order[left - 1]) && now.boot_queue == order.take(
                left - 1,
            )
            &&& left == 0 ==> now.pending is None && now.boot_queue.len() == 0
        }),
    decreases refusals.len(),
{
    let order = boot_order(found, catalog.record.active);
    a_boot_order_is_as_long(found, catalog.record.active);
    if refusals.len() > 0 {
        let earlier = refusals.drop_last();
        assert forall|i: int| 0 <= i < earlier.len() implies refuses(
            #[trigger] earlier[i],
            order[found.len() - 1 - i],
        ) by {
            assert(earlier[i] == refusals[i]);
        }
        a_boot_works_through_its_candidates(catalog, found, earlier);
        let before = all_tried(catalog.boot_once(found), earlier);
        let left = found.len() - earlier.len();
        assert(before.pending == Some(order[left - 1]));
        assert(refuses(refusals[refusals.len() - 1], order[found.len() - 1 - (refusals.len() - 1)]));
        if left > 1 {
            assert(order.take(left - 1).last() == order[left - 2]);
            assert(order.take(left - 1).drop_last() == order.take(left - 2));
        }
    } else if found.len() > 0 {
        assert(order.drop_last() == order.take(found.len() - 1));
    }
}

/// A generation whose archives will not extract is recorded as such, whatever
/// is live stays to be reloaded, and with nothing live the next candidate is
/// pending.
pub proof fn a_failed_extraction_is_recorded_and_recovered_from(
    catalog: CatalogView,
    generation: Generation,
    detail: Seq<char>,
    at: i64,
)
    ensures
        ({
            let (next, step) = catalog.extracted(generation, None, Err(detail), at);
            &&& next.loaded == catalog.loaded
            &&& next.record.history.last() == (EventView {
                what: EventKind::ExtractFailed,
                generation: generation.id@,
                detail: Some(detail),
                at_unix_ms: at,
            })
            &&& match catalog.loaded {
                Some(previous) => {
                    &&& step == (StepView::Recall {
                        refused: RefusedView { id: generation.id@, detail: None },
                        previous,
                    })
                    &&& next == (CatalogView {
                        record: catalog.record.extract_failed(generation.id@, detail, at),
                        ..catalog
                    })
                },
                None => {
                    &&& step is Unload
                    &&& next.record == catalog.record.extract_failed(generation.id@, detail, at)
                    &&& next.booted == catalog.booted
                    &&& next.pending == (if catalog.boot_queue.len() > 0 {
                        Some(catalog.boot_queue.last())
                    } else {
                        None
                    })
                    &&& next.boot_queue == (if catalog.boot_queue.len() > 0 {
                        catalog.boot_queue.drop_last()
                    } else {
                        catalog.boot_queue
                    })
                },
            }
        }),
{
}

} // verus!
