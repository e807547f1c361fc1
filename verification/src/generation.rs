//! Installed generations, and the order a boot tries them in.

use std::path::PathBuf;
use vstd::prelude::*;

use crate::payload::Installed;

verus! {

/// One generation as the updater installed it.
#[derive(Debug)]
pub struct Generation {
    /// What it is known by.
    pub id: String,
    /// Where its archives are.
    pub dir: PathBuf,
    /// What it holds.
    pub artifacts: Vec<Installed>,
    /// When its directory was last modified, in nanoseconds from the Unix
    /// epoch, when that could be told.
    pub modified: Option<i128>,
}

/// When a generation counts as modified: at the epoch when it is not known.
pub open spec fn modified_at(generation: Generation) -> i128 {
    match generation.modified {
        Some(at) => at,
        None => 0,
    }
}

/// When a generation counts as modified.
pub fn modified(generation: &Generation) -> (r: i128)
    ensures
        r == modified_at(*generation),
{
    match generation.modified {
        Some(at) => at,
        None => 0,
    }
}

/// `list`, with `generation` behind everything that is not newer.
pub open spec fn filed(list: Seq<Generation>, generation: Generation) -> Seq<Generation>
    decreases list.len(),
{
    if list.len() == 0 || modified_at(list.last()) <= modified_at(generation) {
        list.push(generation)
    } else {
        filed(list.drop_last(), generation).push(list.last())
    }
}

/// `list` from the oldest to the newest; what is equally old keeps its order.
pub open spec fn oldest_first(list: Seq<Generation>) -> Seq<Generation>
    decreases list.len(),
{
    if list.len() == 0 {
        Seq::empty()
    } else {
        filed(oldest_first(list.drop_last()), list.last())
    }
}

/// Where the first generation called `id` stands in `list`; its length when
/// there is none.
pub open spec fn position(list: Seq<Generation>, id: Seq<char>) -> nat
    decreases list.len(),
{
    if list.len() == 0 || list[0].id@ == id {
        0
    } else {
        1 + position(list.skip(1), id)
    }
}

/// The first generation of `list` called `id`.
pub open spec fn called(list: Seq<Generation>, id: Seq<char>) -> Option<Generation> {
    if position(list, id) < list.len() {
        Some(list[position(list, id) as int])
    } else {
        None
    }
}

/// `list` with the first generation called `id`, if there is one, moved to
/// its end.
pub open spec fn with_last(list: Seq<Generation>, id: Option<Seq<char>>) -> Seq<Generation> {
    match id {
        Some(id) => {
            let at = position(list, id) as int;
            if at < list.len() {
                list.remove(at).push(list[at])
            } else {
                list
            }
        },
        None => list,
    }
}

/// The order a boot tries what it `found` in, last first: the generation
/// recorded as active, then the others from the newest to the oldest.
pub open spec fn boot_order(found: Seq<Generation>, active: Option<Seq<char>>) -> Seq<Generation> {
    with_last(oldest_first(found), active)
}

proof fn filed_at(list: Seq<Generation>, generation: Generation, at: int)
    requires
        0 <= at <= list.len(),
        at == 0 || modified_at(list[at - 1]) <= modified_at(generation),
        forall|i: int| at <= i < list.len() ==> modified_at(#[trigger] list[i]) > modified_at(
            generation,
        ),
    ensures
        filed(list, generation) == list.insert(at, generation),
    decreases list.len(),
{
    if at == list.len() {
        assert(list.insert(at, generation) == list.push(generation));
        if list.len() > 0 {
            assert(list.last() == list[at - 1]);
        }
    } else {
        let shorter = list.drop_last();
        assert forall|i: int| at <= i < shorter.len() implies modified_at(#[trigger] shorter[i])
            > modified_at(generation) by {
            assert(shorter[i] == list[i]);
        }
        filed_at(shorter, generation, at);
        assert(modified_at(list[list.len() - 1]) > modified_at(generation));
        assert(list.insert(at, generation) == shorter.insert(at, generation).push(list.last()));
    }
}

/// Sorts generations from the oldest to the newest.
pub fn sort_by_age(list: Vec<Generation>) -> (r: Vec<Generation>)
    ensures
        r@ == oldest_first(list@),
{
    let mut rest = list;
    let mut r: Vec<Generation> = Vec::new();
    let ghost mut taken: int = 0;
    while rest.len() > 0
        invariant
            0 <= taken <= list@.len(),
            rest@ == list@.skip(taken),
            r@ == oldest_first(list@.take(taken)),
        decreases rest.len(),
    {
        let generation = rest.remove(0);
        let mut at: usize = r.len();
        while at > 0 && modified(&r[at - 1]) > modified(&generation)
            invariant
                at <= r.len(),
                forall|i: int| at <= i < r@.len() ==> modified_at(#[trigger] r@[i]) > modified_at(
                    generation,
                ),
            decreases at,
        {
            at -= 1;
        }
        proof {
            filed_at(r@, generation, at as int);
            assert(list@.take(taken + 1).drop_last() == list@.take(taken));
            assert(list@.take(taken + 1).last() == generation);
            assert(list@.skip(taken).remove(0) == list@.skip(taken + 1));
            taken = taken + 1;
        }
        r.insert(at, generation);
    }
    assert(list@.take(taken) == list@);
    r
}

/// Where the first generation called `id` stands in `list`.
pub fn find_position(list: &Vec<Generation>, id: &str) -> (r: Option<usize>)
    ensures
        match r {
            Some(at) => at == position(list@, id@) && at < list@.len(),
            None => position(list@, id@) == list@.len(),
        },
{
    let wanted = id.to_owned();
    assert(list@.skip(0) == list@);
    for i in 0..list.len()
        invariant
            wanted@ == id@,
            position(list@, id@) == i + position(list@.skip(i as int), id@),
    {
        if list[i].id == wanted {
            return Some(i);
        }
        assert(list@.skip(i as int).skip(1) == list@.skip(i + 1));
    }
    None
}

/// Puts what a boot found in the order it tries it, last first.
pub fn sort_for_boot(found: Vec<Generation>, active: Option<&str>) -> (r: Vec<Generation>)
    ensures
        r@ == boot_order(
            found@,
            match active {
                Some(id) => Some(id@),
                None => None,
            },
        ),
{
    let mut r = sort_by_age(found);
    if let Some(id) = active {
        if let Some(at) = find_position(&r, id) {
            let recorded = r.remove(at);
            r.push(recorded);
        }
    }
    r
}

/// Takes the first generation called `id` out of `list`.
pub fn find(list: Vec<Generation>, id: &str) -> (r: Option<Generation>)
    ensures
        r == called(list@, id@),
{
    let mut list = list;
    match find_position(&list, id) {
        Some(at) => Some(list.remove(at)),
        None => None,
    }
}

} // verus!
