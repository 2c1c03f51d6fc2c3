//! The archive-layout policy.
//!
//! The downloaded archive is expected to unpack to a single top-level
//! directory holding the real payload.  The policy that matches this
//! layout promotes every top-level directory entry of the extraction
//! directory into the install directory and ignores top-level files, so a
//! stray `readme` beside the payload never lands in the install tree.

use vstd::prelude::*;

verus! {

/// One immediate child of the extraction directory, as the surrounding
/// program lists it: its name and whether it is a directory.
pub struct Entry {
    pub name: Vec<u8>,
    pub is_dir: bool,
}

/// The indices of the entries the policy promotes: exactly the
/// directories, in listing order.
pub open spec fn promoted_indices(entries: Seq<Entry>) -> Seq<int>
    decreases entries.len(),
{
    if entries.len() == 0 {
        Seq::empty()
    } else if entries.last().is_dir {
        promoted_indices(entries.drop_last()).push(entries.len() - 1)
    } else {
        promoted_indices(entries.drop_last())
    }
}

/// Picks which listed entries to promote: every directory entry and no
/// file entry, in listing order.
pub fn promote_plan(entries: &Vec<Entry>) -> (r: Vec<usize>)
    ensures
        r@.map_values(|u: usize| u as int) == promoted_indices(entries@),
        forall|j: int| 0 <= j < r@.len() ==> r@[j] < entries@.len() && entries@[r@[j] as int].is_dir,
        forall|k: int|
            0 <= k < entries@.len() && entries@[k].is_dir ==> r@.map_values(
                |u: usize| u as int,
            ).contains(k),
{
    let mut r: Vec<usize> = Vec::new();
    let mut i: usize = 0;
    proof {
        assert(entries@.subrange(0, 0) =~= Seq::<Entry>::empty());
        assert(r@.map_values(|u: usize| u as int) =~= Seq::<int>::empty());
    }
    while i < entries.len()
        invariant
            0 <= i <= entries@.len(),
            r@.map_values(|u: usize| u as int) == promoted_indices(
                entries@.subrange(0, i as int),
            ),
            forall|j: int|
                0 <= j < r@.len() ==> r@[j] < i && entries@[r@[j] as int].is_dir,
            forall|k: int|
                0 <= k < i && entries@[k].is_dir ==> r@.map_values(
                    |u: usize| u as int,
                ).contains(k),
        decreases entries@.len() - i,
    {
        let ghost pre = entries@.subrange(0, i as int);
        let ghost post = entries@.subrange(0, i as int + 1);
        proof {
            assert(post.drop_last() =~= pre);
            assert(post.last() == entries@[i as int]);
        }
        if entries[i].is_dir {
            r.push(i);
            proof {
                assert(r@.map_values(|u: usize| u as int) =~= promoted_indices(pre).push(
                    i as int,
                ));
                assert(forall|k: int|
                    0 <= k < i && entries@[k].is_dir ==> r@.map_values(
                        |u: usize| u as int,
                    ).contains(k)) by {
                    assert(forall|k: int|
                        promoted_indices(pre).contains(k) ==> #[trigger] promoted_indices(
                            pre,
                        ).push(i as int).contains(k)) by {
                        assert(forall|k: int|
                            promoted_indices(pre).contains(k) ==> promoted_indices(pre).push(
                                i as int,
                            )[choose|j: int|
                                0 <= j < promoted_indices(pre).len() && promoted_indices(
                                    pre,
                                )[j] == k] == k);
                    }
                }
                assert(r@.map_values(|u: usize| u as int).contains(i as int)) by {
                    assert(r@.map_values(|u: usize| u as int).last() == i as int);
                }
            }
        }
        i = i + 1;
    }
    proof {
        assert(entries@.subrange(0, entries@.len() as int) =~= entries@);
    }
    r
}

} // verus!
