//! The order a boot tries the installed generations in.

use vstd::prelude::*;

use crate::generation::{
    boot_order, called, filed, modified_at, oldest_first, position, Generation,
};

verus! {

/// Whether `list` runs from the oldest to the newest.
pub open spec fn ascending(list: Seq<Generation>) -> bool {
    forall|i: int, j: int|
        0 <= i <= j < list.len() ==> modified_at(#[trigger] list[i]) <= modified_at(
            #[trigger] list[j],
        )
}

/// The generations of `list` that were modified at `at`, in order.
pub open spec fn of_age(list: Seq<Generation>, at: i128) -> Seq<Generation> {
    list.filter(|generation: Generation| modified_at(generation) == at)
}

proof fn of_age_push(list: Seq<Generation>, generation: Generation, at: i128)
    ensures
        of_age(list.push(generation), at) == (if modified_at(generation) == at {
            of_age(list, at).push(generation)
        } else {
            of_age(list, at)
        }),
{
    list.lemma_filter_push(
        generation,
        |generation: Generation| modified_at(generation) == at,
    );
}

proof fn filed_keeps_order(list: Seq<Generation>, generation: Generation)
    requires
        ascending(list),
    ensures
        ascending(filed(list, generation)),
        filed(list, generation).to_multiset() == list.to_multiset().insert(generation),
        filed(list, generation).len() == list.len() + 1,
        forall|i: int|
            0 <= i < filed(list, generation).len() ==> #[trigger] filed(list, generation)[i]
                == generation || list.contains(filed(list, generation)[i]),
        forall|at: i128| #[trigger]
            of_age(filed(list, generation), at) == of_age(list.push(generation), at),
    decreases list.len(),
{
    broadcast use vstd::seq_lib::group_to_multiset_ensures;

    if list.len() == 0 || modified_at(list.last()) <= modified_at(generation) {
        assert(filed(list, generation) == list.push(generation));
        assert forall|i: int| 0 <= i < list.len() implies list.contains(
            #[trigger] list.push(generation)[i],
        ) by {
            assert(list[i] == list.push(generation)[i]);
        }
    } else {
        let shorter = list.drop_last();
        let inner = filed(shorter, generation);
        let last = list.last();
        filed_keeps_order(shorter, generation);
        assert(shorter.push(last) == list);
        assert forall|i: int| 0 <= i < inner.len() implies modified_at(#[trigger] inner[i])
            <= modified_at(last) by {
            if inner[i] != generation {
                let k = choose|k: int| 0 <= k < shorter.len() && shorter[k] == inner[i];
                assert(list[k] == inner[i]);
                assert(list[list.len() - 1] == last);
            }
        }
        assert(inner.push(last).to_multiset() =~= list.to_multiset().insert(generation)) by {
            assert(inner.push(last).to_multiset() =~= inner.to_multiset().insert(last));
            assert(list.to_multiset() =~= shorter.to_multiset().insert(last));
        }
        assert forall|i: int| 0 <= i < inner.push(last).len() implies #[trigger] inner.push(last)[i]
            == generation || list.contains(inner.push(last)[i]) by {
            if i < inner.len() {
                assert(inner.push(last)[i] == inner[i]);
                if inner[i] != generation {
                    let k = choose|k: int| 0 <= k < shorter.len() && shorter[k] == inner[i];
                    assert(list[k] == inner[i]);
                }
            } else {
                assert(list[list.len() - 1] == last);
            }
        }
        assert forall|at: i128| #[trigger]
            of_age(filed(list, generation), at) == of_age(list.push(generation), at) by {
            of_age_push(inner, last, at);
            of_age_push(shorter, generation, at);
            of_age_push(shorter, last, at);
            of_age_push(list, generation, at);
            assert(of_age(inner, at) == of_age(shorter.push(generation), at));
            if modified_at(last) == at {
                assert(modified_at(generation) != at);
            }
        }
    }
}

/// Sorting loses and invents nothing, runs from the oldest to the newest, and
/// keeps the order of what is equally old.
pub proof fn oldest_first_is_a_stable_sort(list: Seq<Generation>)
    ensures
        oldest_first(list).to_multiset() == list.to_multiset(),
        oldest_first(list).len() == list.len(),
        ascending(oldest_first(list)),
        forall|at: i128| #[trigger] of_age(oldest_first(list), at) == of_age(list, at),
    decreases list.len(),
{
    broadcast use vstd::seq_lib::group_to_multiset_ensures;

    if list.len() == 0 {
        assert(oldest_first(list) =~= list);
    } else {
        let shorter = list.drop_last();
        oldest_first_is_a_stable_sort(shorter);
        filed_keeps_order(oldest_first(shorter), list.last());
        assert(shorter.push(list.last()) == list);
        assert forall|at: i128| #[trigger] of_age(oldest_first(list), at) == of_age(list, at) by {
            of_age_push(oldest_first(shorter), list.last(), at);
            of_age_push(shorter, list.last(), at);
            assert(of_age(oldest_first(shorter), at) == of_age(shorter, at));
            assert(of_age(filed(oldest_first(shorter), list.last()), at) == of_age(
                oldest_first(shorter).push(list.last()),
                at,
            ));
        }
    }
}

proof fn position_of_a_member(list: Seq<Generation>, id: Seq<char>)
    ensures
        position(list, id) <= list.len(),
        position(list, id) < list.len() ==> list[position(list, id) as int].id@ == id,
        position(list, id) < list.len() <==> (exists|i: int|
            0 <= i < list.len() && (#[trigger] list[i]).id@ == id),
    decreases list.len(),
{
    if list.len() > 0 && list[0].id@ != id {
        let rest = list.skip(1);
        position_of_a_member(rest, id);
        if exists|i: int| 0 <= i < list.len() && (#[trigger] list[i]).id@ == id {
            let i = choose|i: int| 0 <= i < list.len() && (#[trigger] list[i]).id@ == id;
            assert(rest[i - 1].id@ == id);
        }
        if position(rest, id) < rest.len() {
            assert(list[1 + position(rest, id) as int].id@ == id);
        }
    }
}

proof fn members_stay(found: Seq<Generation>, generation: Generation)
    ensures
        oldest_first(found).contains(generation) <==> found.contains(generation),
{
    broadcast use vstd::seq_lib::group_to_multiset_ensures;

    oldest_first_is_a_stable_sort(found);
    assert(oldest_first(found).contains(generation) <==> oldest_first(found).to_multiset().count(
        generation,
    ) > 0);
    assert(found.contains(generation) <==> found.to_multiset().count(generation) > 0);
}

/// A boot re-probes the recorded active generation first, however old it is,
/// when it is installed.
pub proof fn the_recorded_generation_is_tried_first(found: Seq<Generation>, active: Seq<char>)
    requires
        exists|i: int| 0 <= i < found.len() && (#[trigger] found[i]).id@ == active,
    ensures
        boot_order(found, Some(active)).len() == found.len(),
        boot_order(found, Some(active)).last().id@ == active,
        found.contains(boot_order(found, Some(active)).last()),
{
    let sorted = oldest_first(found);
    let i = choose|i: int| 0 <= i < found.len() && (#[trigger] found[i]).id@ == active;
    oldest_first_is_a_stable_sort(found);
    members_stay(found, found[i]);
    let k = choose|k: int| 0 <= k < sorted.len() && sorted[k] == found[i];
    assert(sorted[k].id@ == active);
    position_of_a_member(sorted, active);
    let at = position(sorted, active) as int;
    assert(sorted.contains(sorted[at]));
    members_stay(found, sorted[at]);
}

/// Without a recorded active generation among what is installed, a boot tries
/// the newest first, and every one before those that are older.
pub proof fn otherwise_the_newest_is_tried_first(found: Seq<Generation>, active: Option<Seq<char>>)
    requires
        active matches Some(id) ==> forall|i: int|
            0 <= i < found.len() ==> (#[trigger] found[i]).id@ != id,
    ensures
        boot_order(found, active) == oldest_first(found),
        ascending(boot_order(found, active)),
{
    oldest_first_is_a_stable_sort(found);
    if let Some(id) = active {
        let sorted = oldest_first(found);
        position_of_a_member(sorted, id);
        if position(sorted, id) < sorted.len() {
            let at = position(sorted, id) as int;
            assert(sorted.contains(sorted[at]));
            members_stay(found, sorted[at]);
            let i = choose|i: int| 0 <= i < found.len() && found[i] == sorted[at];
            assert(found[i].id@ == id);
        }
    }
}

/// A generation is as old as its directory, and one whose age cannot be told
/// as old as the epoch.
pub proof fn a_generation_is_as_old_as_its_directory(generation: Generation)
    ensures
        generation.modified matches Some(at) ==> modified_at(generation) == at,
        generation.modified is None ==> modified_at(generation) == 0,
{
}

/// The recorded generation moves to the front of the boot and the others keep
/// their order: of several of that name, the oldest is the recorded one.
pub proof fn the_recorded_generation_alone_moves(found: Seq<Generation>, active: Seq<char>)
    ensures
        (exists|i: int| 0 <= i < found.len() && (#[trigger] found[i]).id@ == active) ==> exists|
            at: int,
        | #[trigger] is_first(oldest_first(found), active, at) && boot_order(found, Some(active))
            == oldest_first(found).remove(at).push(oldest_first(found)[at]),
        boot_order(found, None) == oldest_first(found),
{
    let sorted = oldest_first(found);
    if exists|i: int| 0 <= i < found.len() && (#[trigger] found[i]).id@ == active {
        let i = choose|i: int| 0 <= i < found.len() && (#[trigger] found[i]).id@ == active;
        members_stay(found, found[i]);
        let k = choose|k: int| 0 <= k < sorted.len() && sorted[k] == found[i];
        assert(sorted[k].id@ == active);
        position_of_a_member(sorted, active);
        position_is_first(sorted, active);
        assert(is_first(sorted, active, position(sorted, active) as int));
    }
}

/// Whether the first generation of `list` called `id` stands at `at`.
pub open spec fn is_first(list: Seq<Generation>, id: Seq<char>, at: int) -> bool {
    &&& 0 <= at < list.len()
    &&& list[at].id@ == id
    &&& forall|k: int| 0 <= k < at ==> (#[trigger] list[k]).id@ != id
}

proof fn position_is_first(list: Seq<Generation>, id: Seq<char>)
    ensures
        forall|k: int| 0 <= k < position(list, id) ==> (#[trigger] list[k]).id@ != id,
    decreases list.len(),
{
    if list.len() > 0 && list[0].id@ != id {
        let rest = list.skip(1);
        position_is_first(rest, id);
        position_of_a_member(list, id);
        assert forall|k: int| 0 <= k < position(list, id) implies (#[trigger] list[k]).id@ != id by {
            if k > 0 {
                assert(rest[k - 1] == list[k]);
            }
        }
    }
}

/// Of several generations of one name the first is found.
pub proof fn the_first_of_a_name_is_found(list: Seq<Generation>, id: Seq<char>, at: int)
    requires
        is_first(list, id, at),
    ensures
        called(list, id) == Some(list[at]),
{
    position_of_a_member(list, id);
    position_is_first(list, id);
    assert(list[at].id@ == id);
    if position(list, id) > at {
        assert(list[at].id@ != id);
    }
    if position(list, id) < at {
        assert(list[position(list, id) as int].id@ == id);
    }
}

/// A boot tries everything that is installed, and each once: the order holds
/// what was found, no more and no less.
pub proof fn a_boot_tries_everything_once(found: Seq<Generation>, active: Option<Seq<char>>)
    ensures
        boot_order(found, active).to_multiset() == found.to_multiset(),
{
    broadcast use vstd::seq_lib::group_to_multiset_ensures;

    let sorted = oldest_first(found);
    oldest_first_is_a_stable_sort(found);
    if let Some(id) = active {
        position_of_a_member(sorted, id);
        let at = position(sorted, id) as int;
        if at < sorted.len() {
            let moved = sorted[at];
            assert(sorted.contains(moved));
            vstd::seq_lib::to_multiset_remove(sorted, at);
            assert(sorted.remove(at).push(moved).to_multiset() =~= sorted.to_multiset());
        }
    }
}

/// Behind the recorded generation the others still run from the newest to the
/// oldest.
pub proof fn the_others_follow_newest_first(found: Seq<Generation>, active: Option<Seq<char>>)
    requires
        found.len() > 0,
    ensures
        ascending(boot_order(found, active).drop_last()),
{
    oldest_first_is_a_stable_sort(found);
    let sorted = oldest_first(found);
    if let Some(id) = active {
        position_of_a_member(sorted, id);
        let at = position(sorted, id) as int;
        if at < sorted.len() {
            assert(boot_order(found, active).drop_last() == sorted.remove(at));
        }
    }
}

/// Looking for a generation by its name finds one exactly when there is one.
pub proof fn what_is_installed_is_found(list: Seq<Generation>, id: Seq<char>)
    ensures
        called(list, id) is Some <==> (exists|i: int|
            0 <= i < list.len() && (#[trigger] list[i]).id@ == id),
        called(list, id) matches Some(generation) ==> generation.id@ == id && list.contains(
            generation,
        ),
{
    position_of_a_member(list, id);
    if called(list, id) is Some {
        assert(list.contains(list[position(list, id) as int]));
    }
}

} // verus!
