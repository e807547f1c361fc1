//! Places on disk, as a base that the host chose and the segments below it.

use std::path::PathBuf;
use vstd::prelude::*;

use crate::text::texts;

verus! {

/// A path of the host's file system, carried through as it came.
#[verifier::external_type_specification]
#[verifier::external_body]
pub struct ExPathBuf(PathBuf);

/// Cloning a `PathBuf` gives the same path.
pub assume_specification[ <PathBuf as Clone>::clone ](path: &PathBuf) -> (r: PathBuf)
    ensures
        r == *path,
;

/// A place below a base that the host chose.
///
/// The host resolves it by joining the segments to the base one by one.
#[derive(Debug, PartialEq, Eq)]
pub struct TreePath {
    /// Where the place is reckoned from.
    pub base: PathBuf,
    /// What is joined to the base, outermost first.
    pub segments: Vec<String>,
}

/// A [`TreePath`] with its segments as text.
#[verifier::ext_equal]
pub struct TreePathView {
    pub base: PathBuf,
    pub segments: Seq<Seq<char>>,
}

impl TreePathView {
    /// The place one segment further down.
    pub open spec fn join(self, segment: Seq<char>) -> TreePathView {
        TreePathView { base: self.base, segments: self.segments.push(segment) }
    }
}

impl View for TreePath {
    type V = TreePathView;

    open spec fn view(&self) -> TreePathView {
        TreePathView { base: self.base, segments: texts(self.segments@) }
    }
}

impl Clone for TreePath {
    fn clone(&self) -> (r: Self)
        ensures
            r@ == self@,
    {
        let mut segments: Vec<String> = Vec::new();
        for i in 0..self.segments.len()
            invariant
                segments@ == self.segments@.take(i as int),
        {
            segments.push(self.segments[i].clone());
        }
        TreePath { base: self.base.clone(), segments }
    }
}

impl TreePath {
    /// The base itself.
    pub fn new(base: PathBuf) -> (r: Self)
        ensures
            r@ == (TreePathView { base, segments: Seq::empty() }),
    {
        TreePath { base, segments: Vec::new() }
    }

    /// The place one segment further down.
    pub fn join(&self, segment: &str) -> (r: Self)
        ensures
            r@ == self@.join(segment@),
    {
        let mut r = self.clone();
        let ghost was = r@;
        r.segments.push(segment.to_owned());
        assert(r@.segments == was.segments.push(segment@));
        r
    }
}

/// The places of a list.
pub open spec fn places(list: Seq<TreePath>) -> Seq<TreePathView> {
    list.map_values(|place: TreePath| place@)
}

} // verus!
