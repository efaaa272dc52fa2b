//! The bricks on the field, kept in the order in which they appear.
use vstd::prelude::*;
use std::collections::VecDeque;

use crate::objects::BrickType;

verus! {

/// The items of `s` whose flag in `flags` is not set, in their order.
pub open spec fn unflagged<T>(s: Seq<T>, flags: Seq<bool>) -> Seq<T>
    decreases s.len(),
{
    if s.len() == 0 {
        Seq::empty()
    } else {
        let rest = unflagged(s.drop_last(), flags);
        if flags[s.len() - 1] {
            rest
        } else {
            rest.push(s.last())
        }
    }
}

/// The number of flags set among the first `n` of `flags`.
pub open spec fn flagged_count(flags: Seq<bool>, n: int) -> nat
    decreases n,
{
    if n <= 0 {
        0
    } else {
        flagged_count(flags, n - 1) + if flags[n - 1] { 1nat } else { 0nat }
    }
}

proof fn lemma_unflagged_step<T>(s: Seq<T>, flags: Seq<bool>, i: int)
    requires
        0 <= i < s.len(),
    ensures
        unflagged(s.take(i + 1), flags) == if flags[i] {
            unflagged(s.take(i), flags)
        } else {
            unflagged(s.take(i), flags).push(s[i])
        },
{
    assert(s.take(i + 1).drop_last() =~= s.take(i));
}

/// The items of `s` left once the flagged ones are gone number as many as
/// the items less the flags set.
pub proof fn lemma_unflagged_len<T>(s: Seq<T>, flags: Seq<bool>)
    ensures
        unflagged(s, flags).len() + flagged_count(flags, s.len() as int) == s.len(),
    decreases s.len(),
{
    if s.len() > 0 {
        lemma_unflagged_len(s.drop_last(), flags);
    }
}

/// Exchanges the items at positions `i` and `j` of a deque.
#[verifier::external_body]
fn swap_items<T>(v: &mut VecDeque<T>, i: usize, j: usize)
    requires
        i < old(v)@.len(),
        j < old(v)@.len(),
    ensures
        final(v)@ == old(v)@.update(i as int, old(v)@[j as int]).update(j as int, old(v)@[i as int]),
{
    v.swap(i, j);
}

/// Removes from `bricks` every item whose flag in `flags` is set, keeping
/// the order of the others, and returns how many it removed. Kept items are
/// moved down over the removed ones and the tail is cut off afterwards.
pub fn discard_flagged<T>(bricks: &mut VecDeque<T>, flags: &Vec<bool>) -> (removed: usize)
    requires
        old(bricks)@.len() == flags@.len(),
    ensures
        final(bricks)@ == unflagged(old(bricks)@, flags@),
        removed == flagged_count(flags@, flags@.len() as int),
{
    let ghost orig = bricks@;
    let len = bricks.len();
    let mut del: usize = 0;
    let mut i: usize = 0;
    while i < len
        invariant
            len == orig.len(),
            len == flags@.len(),
            bricks@.len() == len,
            del <= i <= len,
            del == flagged_count(flags@, i as int),
            bricks@.take(i - del) == unflagged(orig.take(i as int), flags@),
            forall|k: int| i <= k < len ==> bricks@[k] == orig[k],
        decreases len - i,
    {
        proof {
            lemma_unflagged_step(orig, flags@, i as int);
            lemma_unflagged_len(orig.take(i as int), flags@);
        }
        if flags[i] {
            del = del + 1;
        } else if del > 0 {
            swap_items(bricks, i - del, i);
        }
        i = i + 1;
        proof {
            assert(bricks@.take(i - del) =~= unflagged(orig.take(i as int), flags@));
        }
    }
    bricks.truncate(len - del);
    proof {
        assert(orig.take(len as int) =~= orig);
        assert(bricks@ =~= unflagged(orig, flags@));
    }
    del
}

/// Some hitbox of the same type as brick `i` touches it; `touching[h][i]`
/// tells whether hitbox `h` touches brick `i`.
pub open spec fn is_struck(hitbox_types: Seq<BrickType>, touching: Seq<Vec<bool>>, brick_type: BrickType, i: int) -> bool {
    exists|h: int| 0 <= h < hitbox_types.len() && #[trigger] hitbox_types[h] == brick_type && touching[h]@[i]
}

/// Which bricks break: a brick breaks when a hitbox of its own type touches
/// it. `touching[h][i]` tells whether hitbox `h` touches brick `i`.
pub fn struck_bricks(
    hitbox_types: &Vec<BrickType>,
    brick_types: &Vec<BrickType>,
    touching: &Vec<Vec<bool>>,
) -> (struck: Vec<bool>)
    requires
        touching@.len() == hitbox_types@.len(),
        forall|h: int| 0 <= h < touching@.len() ==> (#[trigger] touching@[h])@.len() == brick_types@.len(),
    ensures
        struck@.len() == brick_types@.len(),
        forall|i: int| 0 <= i < struck@.len() ==>
            struck@[i] == is_struck(hitbox_types@, touching@, brick_types@[i], i),
{
    let mut struck: Vec<bool> = Vec::new();
    let mut i: usize = 0;
    while i < brick_types.len()
        invariant
            i <= brick_types@.len(),
            struck@.len() == i,
            touching@.len() == hitbox_types@.len(),
            forall|h: int| 0 <= h < touching@.len() ==> (#[trigger] touching@[h])@.len() == brick_types@.len(),
            forall|j: int| 0 <= j < i ==>
                struck@[j] == is_struck(hitbox_types@, touching@, brick_types@[j], j),
        decreases brick_types@.len() - i,
    {
        let mut hit = false;
        let mut h: usize = 0;
        while h < hitbox_types.len()
            invariant
                i < brick_types@.len(),
                h <= hitbox_types@.len(),
                touching@.len() == hitbox_types@.len(),
                forall|h2: int| 0 <= h2 < touching@.len() ==> (#[trigger] touching@[h2])@.len() == brick_types@.len(),
                hit == exists|h2: int| 0 <= h2 < h && #[trigger] hitbox_types@[h2] == brick_types@[i as int] && touching@[h2]@[i as int],
            decreases hitbox_types@.len() - h,
        {
            if hitbox_types[h] == brick_types[i] && touching[h][i] {
                hit = true;
            }
            h = h + 1;
        }
        struck.push(hit);
        i = i + 1;
    }
    struck
}

/// When no flag is set every brick stays, in its place.
pub proof fn lemma_nothing_flagged_keeps_all<T>(s: Seq<T>, flags: Seq<bool>)
    requires
        forall|i: int| 0 <= i < s.len() ==> !#[trigger] flags[i],
    ensures
        unflagged(s, flags) == s,
    decreases s.len(),
{
    if s.len() > 0 {
        lemma_nothing_flagged_keeps_all(s.drop_last(), flags);
        assert(unflagged(s, flags) =~= s);
    }
}

/// When every flag is set no brick stays.
pub proof fn lemma_all_flagged_keeps_none<T>(s: Seq<T>, flags: Seq<bool>)
    requires
        forall|i: int| 0 <= i < s.len() ==> #[trigger] flags[i],
    ensures
        unflagged(s, flags) == Seq::<T>::empty(),
    decreases s.len(),
{
    if s.len() > 0 {
        lemma_all_flagged_keeps_none(s.drop_last(), flags);
    }
}

/// Every brick that stays was on the field before.
pub proof fn lemma_unflagged_from_original<T>(s: Seq<T>, flags: Seq<bool>)
    ensures
        forall|x: T| unflagged(s, flags).contains(x) ==> s.contains(x),
    decreases s.len(),
{
    if s.len() > 0 {
        lemma_unflagged_from_original(s.drop_last(), flags);
        assert forall|x: T| unflagged(s, flags).contains(x) implies s.contains(x) by {
            let r = unflagged(s.drop_last(), flags);
            if r.contains(x) {
                assert(s.drop_last().contains(x));
                let k = s.drop_last().index_of(x);
                assert(s[k] == x);
            } else {
                assert(x == s.last());
                assert(s[s.len() - 1] == x);
            }
        }
    }
}

/// With one flag set, exactly that brick leaves and the others keep their
/// order.
pub proof fn lemma_one_flagged_removes_it<T>(s: Seq<T>, flags: Seq<bool>, k: int)
    requires
        0 <= k < s.len(),
        flags[k],
        forall|i: int| 0 <= i < s.len() && i != k ==> !#[trigger] flags[i],
    ensures
        unflagged(s, flags) == s.remove(k),
    decreases s.len(),
{
    if k == s.len() - 1 {
        lemma_nothing_flagged_keeps_all(s.drop_last(), flags);
        assert(s.drop_last() =~= s.remove(k));
    } else {
        lemma_one_flagged_removes_it(s.drop_last(), flags, k);
        assert(s.drop_last().remove(k).push(s.last()) =~= s.remove(k));
    }
}

} // verus!
