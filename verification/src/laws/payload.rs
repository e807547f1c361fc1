//! Payload trees, over whole extractions and sweeps.

use vstd::prelude::*;

use crate::payload::{
    doomed, failed, first_missing, follows, library_name, library_places, misshapen, Entry,
    Extraction, Failure, Found, Installed, PayloadStep, PayloadStore, ARCHIVE_SUFFIX,
};
use crate::tree::{places, TreePath, TreePathView};

verus! {

/// A place is one segment below another when it has its base, its segments,
/// and that segment.
pub proof fn a_place_is_joined_segment_by_segment(place: TreePathView, segment: Seq<char>)
    ensures
        place.join(segment).base == place.base,
        place.join(segment).segments.len() == place.segments.len() + 1,
        place.join(segment).segments.drop_last() == place.segments,
        place.join(segment).segments.last() == segment,
{
    assert(place.join(segment).segments.drop_last() == place.segments);
}

/// The places of a list are those of its paths, one for each and in order,
/// and none hides a segment.
pub proof fn the_places_are_those_of_the_paths(list: Seq<TreePath>)
    ensures
        places(list).len() == list.len(),
        forall|i: int|
            0 <= i < list.len() ==> {
                &&& (#[trigger] places(list)[i]).base == list[i].base
                &&& places(list)[i].segments.len() == list[i].segments@.len()
                &&& forall|k: int|
                    0 <= k < list[i].segments@.len() ==> #[trigger] places(list)[i].segments[k]
                        == list[i].segments@[k]@
            },
{
}

/// Every artifact has its library, below the tree and in order: its name, the
/// mark of a decoder, and what the platform's libraries end in.
pub proof fn every_artifact_has_its_library(
    dir: TreePathView,
    artifacts: Seq<Installed>,
    dll_suffix: Seq<char>,
)
    ensures
        library_places(dir, artifacts, dll_suffix).len() == artifacts.len(),
        forall|i: int|
            0 <= i < artifacts.len() ==> {
                &&& (#[trigger] library_places(dir, artifacts, dll_suffix)[i]).base == dir.base
                &&& library_places(dir, artifacts, dll_suffix)[i].segments == dir.segments.push(
                    artifacts[i].name@ + "_playback"@ + dll_suffix,
                )
            },
        forall|name: Seq<char>| #[trigger]
            library_name(name, dll_suffix) == name + "_playback"@ + dll_suffix,
{
}

/// The libraries of two sets of artifacts together are those of the one, then
/// those of the other.
pub proof fn libraries_add_up(
    dir: TreePathView,
    a: Seq<Installed>,
    b: Seq<Installed>,
    dll_suffix: Seq<char>,
)
    ensures
        library_places(dir, a + b, dll_suffix) == library_places(dir, a, dll_suffix)
            + library_places(dir, b, dll_suffix),
{
}

/// An extraction is set up for the generation as it was asked for: every
/// artifact is to come, each with its library in the finished tree.
pub proof fn an_extraction_begins_with_everything_to_come(
    store: &PayloadStore,
    id: Seq<char>,
    generation_dir: TreePathView,
    artifacts: Seq<Installed>,
    first: Extraction,
)
    requires
        first.begins(store, id, generation_dir, artifacts),
    ensures
        first.rest@ == artifacts,
        first.unpacked@.len() == 0,
        first.generation_dir@ == generation_dir,
        first.dir@ == store.place().join(id),
        first.staging@ == store.place().join(".staging-"@ + id),
        first.libraries@.len() == artifacts.len(),
        forall|i: int|
            0 <= i < artifacts.len() ==> (#[trigger] first.libraries@[i])@ == store.place().join(
                id,
            ).join(artifacts[i].name@ + "_playback"@ + store.suffix()),
{
    assert(places(first.libraries@).len() == artifacts.len());
    assert forall|i: int| 0 <= i < artifacts.len() implies (#[trigger] first.libraries@[i])@
        == store.place().join(id).join(artifacts[i].name@ + "_playback"@ + store.suffix()) by {
        assert(places(first.libraries@)[i] == first.libraries@[i]@);
    }
}

/// An extraction goes on with the next artifact as long as one is to come, and
/// then commits; it stops only at an artifact that is not an archive, and says
/// so.
pub proof fn an_extraction_goes_on_archive_by_archive(extraction: Extraction, step: PayloadStep)
    requires
        extraction.goes_on(step),
    ensures
        ARCHIVE_SUFFIX@ == ".tar.zst"@,
        extraction.rest@.len() == 0 ==> step == PayloadStep::Commit(extraction),
        extraction.rest@.len() > 0 && ".tar.zst"@.is_suffix_of(extraction.rest@[0].path@) ==> {
            &&& step is ReadArchive
            &&& step->ReadArchive_0.artifact == extraction.rest@[0]
            &&& step->ReadArchive_0.archive@ == extraction.generation_dir@.join(
                extraction.rest@[0].path@,
            )
            &&& step->ReadArchive_0.extraction.unpacked@ == extraction.unpacked@
            &&& step->ReadArchive_0.extraction.rest@ == extraction.rest@.skip(1)
            &&& step->ReadArchive_0.extraction.staging == extraction.staging
            &&& step->ReadArchive_0.extraction.dir == extraction.dir
            &&& step->ReadArchive_0.extraction.generation_dir == extraction.generation_dir
            &&& step->ReadArchive_0.extraction.libraries == extraction.libraries
        },
        extraction.rest@.len() > 0 && !".tar.zst"@.is_suffix_of(extraction.rest@[0].path@) ==> {
            &&& step is Refused
            &&& step->Refused_0@ == "artifact "@ + extraction.rest@[0].name@ + " is not a "@
                + ".tar.zst"@ + " archive: "@ + extraction.rest@[0].path@
        },
{
}

/// What could not be done to a place is told with the place and the cause.
pub proof fn a_failure_names_the_place_and_the_cause(
    what: Seq<char>,
    failure: Failure,
    artifact: Installed,
)
    ensures
        failed(what, failure) == what + failure.shown@ + ": "@ + failure.cause@,
        misshapen(artifact) == "artifact "@ + artifact.name@ + " is not a "@ + ".tar.zst"@
            + " archive: "@ + artifact.path@,
{
}

/// A tree loads when every library in it is a regular file, and is refused for
/// the first that is not.
pub proof fn a_tree_is_refused_for_the_first_missing_library(found: Seq<Found>)
    ensures
        first_missing(found) is None <==> forall|i: int|
            0 <= i < found.len() ==> (#[trigger] found[i]).regular,
        first_missing(found) matches Some(missing) ==> exists|i: int|
            0 <= i < found.len() && #[trigger] found[i] == missing && !missing.regular && (forall|
                k: int,
            |
                0 <= k < i ==> (#[trigger] found[k]).regular),
    decreases found.len(),
{
    if found.len() > 0 && found[0].regular {
        let rest = found.skip(1);
        a_tree_is_refused_for_the_first_missing_library(rest);
        if first_missing(found) is None {
            assert forall|i: int| 0 <= i < found.len() implies (#[trigger] found[i]).regular by {
                if i > 0 {
                    assert(rest[i - 1].regular);
                }
            }
        } else {
            let missing = first_missing(found)->0;
            let i = choose|i: int|
                0 <= i < rest.len() && #[trigger] rest[i] == missing && !missing.regular && (forall|
                    k: int,
                |
                    0 <= k < i ==> (#[trigger] rest[k]).regular);
            assert(found[i + 1] == missing);
            assert forall|k: int| 0 <= k < i + 1 implies (#[trigger] found[k]).regular by {
                if k > 0 {
                    assert(rest[k - 1].regular);
                }
            }
        }
    } else if found.len() > 0 {
        assert(found[0] == first_missing(found)->0);
    }
}

/// Whether `steps` is what a host can be asked for, one after the other.
pub open spec fn is_extraction(steps: Seq<PayloadStep>) -> bool {
    forall|i: int| 0 <= i < steps.len() - 1 ==> #[trigger] follows(steps[i], steps[i + 1])
}

/// Whether `step` belongs to the extraction that began as `first`, and counts
/// all its artifacts.
pub open spec fn accounts_for(step: PayloadStep, first: Extraction) -> bool {
    match step {
        PayloadStep::ClearStaging(extraction) => extraction == first,
        PayloadStep::CreateStaging(extraction) => extraction == first,
        PayloadStep::ReadArchive(unpacking) => {
            &&& unpacking.extraction.same_work(first)
            &&& unpacking.extraction.unpacked@ + seq![unpacking.artifact]
                + unpacking.extraction.rest@ == first.all()
        },
        PayloadStep::Unpack(unpacking, _) => {
            &&& unpacking.extraction.same_work(first)
            &&& unpacking.extraction.unpacked@ + seq![unpacking.artifact]
                + unpacking.extraction.rest@ == first.all()
        },
        PayloadStep::Commit(extraction) => {
            &&& extraction.same_work(first)
            &&& extraction.unpacked@ == first.all()
        },
        PayloadStep::Inspect(libraries) => libraries == first.libraries,
        PayloadStep::Refused(_) => true,
    }
}

proof fn going_on_accounts(extraction: Extraction, first: Extraction, next: PayloadStep)
    requires
        extraction.same_work(first),
        extraction.all() == first.all(),
        extraction.goes_on(next),
    ensures
        accounts_for(next, first),
{
    if extraction.rest@.len() == 0 {
        assert(extraction.unpacked@ + extraction.rest@ == extraction.unpacked@);
    } else {
        assert(extraction.unpacked@ + seq![extraction.rest@[0]] + extraction.rest@.skip(1)
            == extraction.all());
    }
}

proof fn following_accounts(step: PayloadStep, next: PayloadStep, first: Extraction)
    requires
        accounts_for(step, first),
        follows(step, next),
    ensures
        accounts_for(next, first),
{
    if !(next is Refused) {
        match step {
            PayloadStep::CreateStaging(extraction) => {
                going_on_accounts(extraction, first, next);
            },
            PayloadStep::Unpack(unpacking, _) => {
                let done = choose|done: Extraction| #[trigger]
                    unpacking.finishes(done) && done.goes_on(next);
                assert(done.all() == unpacking.extraction.unpacked@ + seq![unpacking.artifact]
                    + unpacking.extraction.rest@);
                going_on_accounts(done, first, next);
            },
            _ => {},
        }
    }
}

proof fn every_step_accounts(steps: Seq<PayloadStep>, first: Extraction, i: int)
    requires
        is_extraction(steps),
        0 <= i < steps.len(),
        steps[0] == PayloadStep::ClearStaging(first),
    ensures
        accounts_for(steps[i], first),
    decreases i,
{
    if i > 0 {
        every_step_accounts(steps, first, i - 1);
        assert(follows(steps[i - 1], steps[i - 1 + 1]));
        following_accounts(steps[i - 1], steps[i], first);
    }
}

/// A committed tree is always a complete one: from the start of an extraction
/// to its commit, every artifact of the generation was unpacked, in order,
/// and what is committed is the staging directory of that generation.
pub proof fn a_committed_tree_is_complete(
    store: &PayloadStore,
    id: Seq<char>,
    generation_dir: TreePathView,
    artifacts: Seq<Installed>,
    steps: Seq<PayloadStep>,
    first: Extraction,
    i: int,
)
    requires
        is_extraction(steps),
        0 <= i < steps.len(),
        steps[0] == PayloadStep::ClearStaging(first),
        first.begins(store, id, generation_dir, artifacts),
    ensures
        steps[i] matches PayloadStep::Commit(extraction) ==> {
            &&& extraction.unpacked@ == artifacts
            &&& extraction.staging@ == store.place().join(".staging-"@ + id)
            &&& extraction.dir@ == store.place().join(id)
        },
{
    every_step_accounts(steps, first, i);
    assert(first.all() == artifacts);
}

/// The artifacts whose archives the host was asked to unpack, in order.
pub open spec fn unpacks(steps: Seq<PayloadStep>) -> Seq<Installed>
    decreases steps.len(),
{
    if steps.len() == 0 {
        Seq::empty()
    } else {
        match steps.last() {
            PayloadStep::Unpack(unpacking, _) => unpacks(steps.drop_last()).push(
                unpacking.artifact,
            ),
            _ => unpacks(steps.drop_last()),
        }
    }
}

/// Whether `step` says of what the host unpacked, which is `done`, that it is
/// in the staging directory, and where the next archive is.
pub open spec fn tells_of(step: PayloadStep, done: Seq<Installed>) -> bool {
    match step {
        PayloadStep::ClearStaging(extraction) => extraction.unpacked@ == done,
        PayloadStep::CreateStaging(extraction) => extraction.unpacked@ == done,
        PayloadStep::ReadArchive(unpacking) => {
            &&& unpacking.extraction.unpacked@ == done
            &&& unpacking.archive@ == unpacking.extraction.generation_dir@.join(
                unpacking.artifact.path@,
            )
            &&& ".tar.zst"@.is_suffix_of(unpacking.artifact.path@)
        },
        PayloadStep::Unpack(unpacking, _) => {
            &&& unpacking.extraction.unpacked@ == done
            &&& unpacking.archive@ == unpacking.extraction.generation_dir@.join(
                unpacking.artifact.path@,
            )
            &&& ".tar.zst"@.is_suffix_of(unpacking.artifact.path@)
        },
        PayloadStep::Commit(extraction) => extraction.unpacked@ == done,
        PayloadStep::Inspect(_) => true,
        PayloadStep::Refused(_) => true,
    }
}

proof fn every_step_tells(steps: Seq<PayloadStep>, first: Extraction, i: int)
    requires
        is_extraction(steps),
        0 <= i < steps.len(),
        steps[0] == PayloadStep::ClearStaging(first),
        first.unpacked@.len() == 0,
    ensures
        tells_of(steps[i], unpacks(steps.take(i))),
    decreases i,
{
    if i == 0 {
        assert(steps.take(0).len() == 0);
        assert(first.unpacked@ == Seq::<Installed>::empty());
    } else {
        every_step_tells(steps, first, i - 1);
        assert(follows(steps[i - 1], steps[i - 1 + 1]));
        assert(steps.take(i).drop_last() == steps.take(i - 1));
        assert(steps.take(i).last() == steps[i - 1]);
        if let PayloadStep::Unpack(unpacking, _) = steps[i - 1] {
            if !(steps[i] is Refused) {
                let done = choose|done: Extraction| #[trigger]
                    unpacking.finishes(done) && done.goes_on(steps[i]);
                assert(done.unpacked@ == unpacks(steps.take(i)));
            }
        }
    }
}

/// Nothing is committed that the host did not unpack: up to the commit it was
/// asked to unpack the archive of every artifact of the generation, once and
/// in order, from the generation's directory into the staging directory, each
/// right after that archive was read.
pub proof fn every_archive_is_unpacked_before_the_commit(
    store: &PayloadStore,
    id: Seq<char>,
    generation_dir: TreePathView,
    artifacts: Seq<Installed>,
    steps: Seq<PayloadStep>,
    first: Extraction,
    i: int,
)
    requires
        is_extraction(steps),
        0 <= i < steps.len(),
        steps[0] == PayloadStep::ClearStaging(first),
        first.begins(store, id, generation_dir, artifacts),
    ensures
        steps[i] is Commit ==> unpacks(steps.take(i)) == artifacts,
        steps[i] matches PayloadStep::Unpack(unpacking, _) ==> {
            &&& unpacking.archive@ == generation_dir.join(unpacking.artifact.path@)
            &&& ".tar.zst"@.is_suffix_of(unpacking.artifact.path@)
            &&& unpacking.extraction.staging@ == store.place().join(".staging-"@ + id)
            &&& i > 0
            &&& steps[i - 1] == PayloadStep::ReadArchive(unpacking)
        },
        steps[i] matches PayloadStep::Inspect(libraries) ==> places(libraries@) == library_places(
            store.place().join(id),
            artifacts,
            store.suffix(),
        ),
        steps[i] is Inspect ==> i > 0 && steps[i - 1] is Commit,
{
    every_step_accounts(steps, first, i);
    every_step_tells(steps, first, i);
    assert(first.all() == artifacts);
    if i > 0 {
        assert(follows(steps[i - 1], steps[i - 1 + 1]));
    }
}

/// A crashed extraction cannot shadow a generation: no generation whose name
/// does not start like a staging directory has its tree where another stages.
pub proof fn staging_shadows_no_generation(
    root: TreePathView,
    staged: Seq<char>,
    id: Seq<char>,
)
    requires
        !".staging-"@.is_prefix_of(id),
    ensures
        root.join(".staging-"@ + staged) != root.join(id),
{
    let staging = ".staging-"@ + staged;
    assert(".staging-"@ == staging.subrange(0, ".staging-"@.len() as int));
    assert(root.join(staging).segments.last() == staging);
    assert(root.join(id).segments.last() == id);
}

proof fn doomed_has(
    root: TreePathView,
    live: Seq<Seq<char>>,
    entries: Seq<Entry>,
    name: Seq<char>,
)
    ensures
        doomed(root, live, entries).contains(root.join(name)) <==> (exists|i: int|
            0 <= i < entries.len() && (#[trigger] entries[i]).retired(live) && entries[i].name->0@
                == name),
{
    let goes = |entry: Entry| entry.retired(live);
    let at = |entry: Entry| root.join(entry.name->0@);
    let gone = entries.filter(goes);
    broadcast use vstd::seq_lib::group_filter_ensures;

    assert forall|a: Seq<char>, b: Seq<char>| #[trigger] root.join(a) == #[trigger] root.join(
        b,
    ) implies a == b by {
        assert(root.join(a).segments.last() == a);
        assert(root.join(b).segments.last() == b);
    }
    if doomed(root, live, entries).contains(root.join(name)) {
        let k = choose|k: int|
            0 <= k < doomed(root, live, entries).len() && doomed(root, live, entries)[k]
                == root.join(name);
        assert(gone.contains(gone[k]));
        entries.lemma_filter_contains_rev(goes, gone[k]);
        assert(goes(gone[k]));
        let i = choose|i: int| 0 <= i < entries.len() && entries[i] == gone[k];
        assert(entries[i].retired(live) && entries[i].name->0@ == name);
    }
    if exists|i: int|
        0 <= i < entries.len() && (#[trigger] entries[i]).retired(live) && entries[i].name->0@
            == name {
        let i = choose|i: int|
            0 <= i < entries.len() && (#[trigger] entries[i]).retired(live) && entries[i].name->0@
                == name;
        assert(goes(entries[i]));
        assert(gone.contains(entries[i]));
        let k = choose|k: int| 0 <= k < gone.len() && gone[k] == entries[i];
        assert(doomed(root, live, entries)[k] == root.join(name));
    }
}

/// A sweep keeps the live trees and clears the rest: of the directories that
/// have a name, those and only those go that `live` does not name.
pub proof fn a_sweep_keeps_the_live_trees_and_clears_the_rest(
    root: TreePathView,
    live: Seq<Seq<char>>,
    entries: Seq<Entry>,
    i: int,
)
    requires
        0 <= i < entries.len(),
        entries[i].is_dir,
        entries[i].name is Some,
    ensures
        doomed(root, live, entries).contains(root.join(entries[i].name->0@)) <==> !live.contains(
            entries[i].name->0@,
        ),
{
    doomed_has(root, live, entries, entries[i].name->0@);
    if !live.contains(entries[i].name->0@) {
        assert(entries[i].retired(live));
    }
}

/// A sweep removes nothing but directories that are entries of the store and
/// have a name that is not live.
pub proof fn a_sweep_removes_entries_alone(
    root: TreePathView,
    live: Seq<Seq<char>>,
    entries: Seq<Entry>,
    place: TreePathView,
)
    requires
        doomed(root, live, entries).contains(place),
    ensures
        exists|i: int|
            0 <= i < entries.len() && (#[trigger] entries[i]).is_dir && entries[i].name is Some
                && !live.contains(entries[i].name->0@) && place == root.join(entries[i].name->0@),
{
    broadcast use vstd::seq_lib::group_filter_ensures;

    let goes = |entry: Entry| entry.retired(live);
    let gone = entries.filter(goes);
    let k = choose|k: int|
        0 <= k < doomed(root, live, entries).len() && doomed(root, live, entries)[k] == place;
    assert(gone.contains(gone[k]));
    entries.lemma_filter_contains_rev(goes, gone[k]);
    assert(goes(gone[k]));
    let i = choose|i: int| 0 <= i < entries.len() && entries[i] == gone[k];
    assert(entries[i].retired(live));
}

/// A sweep decides on every entry by itself: what goes of two listings
/// together is what goes of the one, then what goes of the other.
pub proof fn a_sweep_goes_entry_by_entry(
    root: TreePathView,
    live: Seq<Seq<char>>,
    a: Seq<Entry>,
    b: Seq<Entry>,
)
    ensures
        doomed(root, live, a + b) == doomed(root, live, a) + doomed(root, live, b),
{
    Seq::filter_distributes_over_add(a, b, |entry: Entry| entry.retired(live));
}

/// No sweep touches a tree that is live.
pub proof fn no_live_tree_is_swept(
    root: TreePathView,
    live: Seq<Seq<char>>,
    entries: Seq<Entry>,
    id: Seq<char>,
)
    requires
        live.contains(id),
    ensures
        !doomed(root, live, entries).contains(root.join(id)),
{
    doomed_has(root, live, entries, id);
}

/// A sweep clears every staging leftover, unless a live generation is called
/// like one.
pub proof fn a_sweep_clears_staging_leftovers(
    root: TreePathView,
    live: Seq<Seq<char>>,
    entries: Seq<Entry>,
    i: int,
    id: Seq<char>,
)
    requires
        0 <= i < entries.len(),
        entries[i].is_dir,
        entries[i].name is Some,
        entries[i].name->0@ == ".staging-"@ + id,
        forall|k: int| 0 <= k < live.len() ==> !".staging-"@.is_prefix_of(#[trigger] live[k]),
    ensures
        doomed(root, live, entries).contains(root.join(".staging-"@ + id)),
{
    let name = ".staging-"@ + id;
    assert(".staging-"@ == name.subrange(0, ".staging-"@.len() as int));
    a_sweep_keeps_the_live_trees_and_clears_the_rest(root, live, entries, i);
}

} // verus!
