//! The manifest locator: resolves the project descriptor by searching a
//! directory and then each of its ancestors, stopping at the filesystem root.
//!
//! The search is pure: it reads a snapshot of which directories hold a
//! manifest file, mutates nothing, and is deterministic for one snapshot.

use crate::path::{manifest_filename, FsPath};
use vstd::prelude::*;

verus! {

/// The part of a filesystem snapshot that the locator reads: the set of
/// directories that directly contain a manifest file.
pub struct FsSnapshot {
    pub manifest_dirs: Vec<FsPath>,
}

impl View for FsSnapshot {
    type V = Set<Seq<Seq<char>>>;

    open spec fn view(&self) -> Set<Seq<Seq<char>>> {
        Set::new(
            |d: Seq<Seq<char>>|
                exists|i: int|
                    0 <= i < self.manifest_dirs@.len() && self.manifest_dirs@[i]@ == d,
        )
    }
}

impl FsSnapshot {
    /// Whether `dir` directly contains a manifest file in this snapshot.
    pub fn has_manifest(&self, dir: &FsPath) -> (r: bool)
        ensures
            r == self@.contains(dir@),
    {
        let n = self.manifest_dirs.len();
        for i in 0..n
            invariant
                n == self.manifest_dirs.len(),
                forall|j: int| 0 <= j < i ==> self.manifest_dirs@[j]@ != dir@,
        {
            if self.manifest_dirs[i].same_path(dir) {
                proof {
                    assert(self.manifest_dirs@[i as int]@ == dir@);
                }
                return true;
            }
        }
        false
    }
}

/// The directory whose manifest the search starting at `dir` resolves to:
/// the nearest ancestor of `dir` (including `dir` itself) that holds a
/// manifest file, or nothing when none does up to the root.
pub open spec fn spec_find_manifest(
    dir: Seq<Seq<char>>,
    snapshot: Set<Seq<Seq<char>>>,
) -> Option<Seq<Seq<char>>>
    decreases dir.len(),
{
    if snapshot.contains(dir) {
        Some(dir.push(manifest_filename()))
    } else if dir.len() == 0 {
        None
    } else {
        spec_find_manifest(dir.drop_last(), snapshot)
    }
}

/// What `find_manifest` promises of a result `r` for the given inputs.
pub open spec fn find_manifest_post(
    dir: Seq<Seq<char>>,
    snapshot: Set<Seq<Seq<char>>>,
    r: Option<FsPath>,
) -> bool {
    match r {
        Some(p) => spec_find_manifest(dir, snapshot) == Some(p@),
        None => spec_find_manifest(dir, snapshot) is None,
    }
}

/// Find a Mun manifest file in the specified directory or one of its parents.
pub fn find_manifest(directory: &FsPath, snapshot: &FsSnapshot) -> (r: Option<FsPath>)
    ensures
        find_manifest_post(directory@, snapshot@, r),
{
    let mut current = directory.duplicate();
    loop
        invariant
            spec_find_manifest(directory@, snapshot@) == spec_find_manifest(
                current@,
                snapshot@,
            ),
        decreases current@.len(),
    {
        if snapshot.has_manifest(&current) {
            return Some(current.manifest_file());
        }
        if current.components.len() == 0 {
            return None;
        }
        let ghost prev = current@;
        let _last = current.components.pop();
        proof {
            assert(current@ =~= prev.drop_last());
        }
    }
}

/// `p` names an ancestor of `q`, or the same directory.
pub open spec fn is_ancestor_of(p: Seq<Seq<char>>, q: Seq<Seq<char>>) -> bool {
    p.len() <= q.len() && p == q.take(p.len() as int)
}

/// Law: for a manifest held by an ancestor `anc` of `dir` (at any depth, with
/// `dir` any number of levels below it) and by no nearer ancestor, the search
/// from `dir` resolves to `anc`'s manifest file.
pub proof fn lemma_find_manifest_at_ancestor(
    dir: Seq<Seq<char>>,
    anc: Seq<Seq<char>>,
    snapshot: Set<Seq<Seq<char>>>,
)
    requires
        is_ancestor_of(anc, dir),
        snapshot.contains(anc),
        forall|p: Seq<Seq<char>>|
            is_ancestor_of(p, dir) && p.len() > anc.len() ==> !snapshot.contains(p),
    ensures
        spec_find_manifest(dir, snapshot) == Some(anc.push(manifest_filename())),
    decreases dir.len(),
{
    if dir.len() == anc.len() {
        assert(dir.take(dir.len() as int) =~= dir);
        assert(dir == anc);
    } else {
        assert(dir.take(dir.len() as int) =~= dir);
        assert(is_ancestor_of(dir, dir));
        assert(!snapshot.contains(dir));
        let rest = dir.drop_last();
        assert(rest.take(anc.len() as int) =~= dir.take(anc.len() as int));
        assert(is_ancestor_of(anc, rest));
        assert forall|p: Seq<Seq<char>>|
            is_ancestor_of(p, rest) && p.len() > anc.len() implies !snapshot.contains(p) by {
            assert(p == rest.take(p.len() as int));
            assert(rest.take(p.len() as int) =~= dir.take(p.len() as int));
            assert(is_ancestor_of(p, dir));
        }
        lemma_find_manifest_at_ancestor(rest, anc, snapshot);
    }
}

/// Law: with no manifest in `dir` or any of its ancestors up to the root, the
/// search from `dir` reports "not found".
pub proof fn lemma_find_manifest_none(dir: Seq<Seq<char>>, snapshot: Set<Seq<Seq<char>>>)
    requires
        forall|p: Seq<Seq<char>>| is_ancestor_of(p, dir) ==> !snapshot.contains(p),
    ensures
        spec_find_manifest(dir, snapshot) is None,
    decreases dir.len(),
{
    assert(dir.take(dir.len() as int) =~= dir);
    assert(is_ancestor_of(dir, dir));
    assert(!snapshot.contains(dir));
    if dir.len() > 0 {
        let rest = dir.drop_last();
        assert forall|p: Seq<Seq<char>>| is_ancestor_of(p, rest) implies !snapshot.contains(
            p,
        ) by {
            assert(p == rest.take(p.len() as int));
            assert(rest.take(p.len() as int) =~= dir.take(p.len() as int));
            assert(is_ancestor_of(p, dir));
        }
        lemma_find_manifest_none(rest, snapshot);
    }
}

/// Law: repeated lookups against one unchanged snapshot agree: any two results
/// the locator's contract admits for the same inputs name the same path.
pub proof fn lemma_find_manifest_idempotent(
    dir: Seq<Seq<char>>,
    snapshot: Set<Seq<Seq<char>>>,
    r1: Option<FsPath>,
    r2: Option<FsPath>,
)
    requires
        find_manifest_post(dir, snapshot, r1),
        find_manifest_post(dir, snapshot, r2),
    ensures
        r1 is Some <==> r2 is Some,
        r1 matches Some(p1) ==> r2 matches Some(p2) && p1@ == p2@,
{
}

} // verus!
