//! Structural and arithmetic validation of transfer posts: shape of each
//! operation, duplicate-nullifier detection within one post, and overflow-
//! checked summation of the public amounts.

use vstd::prelude::*;

use crate::config::Balance;
use crate::post::TransferPost;

verus! {

/// No element occurs twice.
pub open spec fn no_duplicates<T>(s: Seq<T>) -> bool {
    forall|p: int, q: int| 0 <= p < q < s.len() ==> s[p] != s[q]
}

/// The sum of a sequence of amounts, as an unbounded integer.
pub open spec fn sum_of(s: Seq<Balance>) -> int
    decreases s.len(),
{
    if s.len() == 0 {
        0
    } else {
        sum_of(s.drop_last()) + s.last()
    }
}

/// A mint post moves public amounts in and creates shielded notes, and
/// nothing else: it names its asset, debits at least one source, creates
/// at least one commitment, and neither spends notes nor credits sinks.
pub open spec fn mint_shape_ok(post: TransferPost) -> bool {
    &&& post.asset_id is Some
    &&& post.sources@.len() > 0
    &&& post.sinks@.len() == 0
    &&& post.spent_nullifiers@.len() == 0
    &&& post.created_commitments@.len() > 0
}

/// A private transfer stays entirely inside the pool: no asset id, no
/// public amounts, at least one note spent and at least one created.
pub open spec fn private_transfer_shape_ok(post: TransferPost) -> bool {
    &&& post.asset_id is None
    &&& post.sources@.len() == 0
    &&& post.sinks@.len() == 0
    &&& post.spent_nullifiers@.len() > 0
    &&& post.created_commitments@.len() > 0
}

/// A reclaim spends shielded notes and moves public amounts out, and
/// nothing else: it names its asset, spends at least one note, credits at
/// least one sink, and neither debits sources nor creates commitments.
pub open spec fn reclaim_shape_ok(post: TransferPost) -> bool {
    &&& post.asset_id is Some
    &&& post.sources@.len() == 0
    &&& post.sinks@.len() > 0
    &&& post.spent_nullifiers@.len() > 0
    &&& post.created_commitments@.len() == 0
}

/// Appending one element adds it to the sum.
proof fn lemma_sum_of_take_step(s: Seq<Balance>, i: int)
    requires
        0 <= i < s.len(),
    ensures
        sum_of(s.take(i + 1)) == sum_of(s.take(i)) + s[i],
{
    let t = s.take(i + 1);
    assert(t.drop_last() =~= s.take(i));
    assert(t.last() == s[i]);
}

/// Every prefix sum is at most the sum of the whole sequence.
proof fn lemma_sum_of_take_bound(s: Seq<Balance>, i: int)
    requires
        0 <= i <= s.len(),
    ensures
        sum_of(s.take(i)) <= sum_of(s),
    decreases s.len() - i,
{
    if i == s.len() {
        assert(s.take(i) =~= s);
    } else {
        lemma_sum_of_take_step(s, i);
        lemma_sum_of_take_bound(s, i + 1);
    }
}

/// Sums the amounts, or reports that their total does not fit a balance.
pub fn checked_sum(amounts: &Vec<Balance>) -> (r: Option<Balance>)
    ensures
        match r {
            Some(total) => total == sum_of(amounts@),
            None => sum_of(amounts@) > Balance::MAX,
        },
{
    let mut total: Balance = 0;
    let n = amounts.len();
    let mut i: usize = 0;
    proof {
        assert(amounts@.take(0) =~= Seq::<Balance>::empty());
    }
    while i < n
        invariant
            i <= n,
            n == amounts@.len(),
            total == sum_of(amounts@.take(i as int)),
        decreases n - i,
    {
        proof {
            lemma_sum_of_take_step(amounts@, i as int);
        }
        match total.checked_add(amounts[i]) {
            Some(next) => {
                total = next;
            },
            None => {
                proof {
                    lemma_sum_of_take_bound(amounts@, i as int + 1);
                }
                return None;
            },
        }
        i = i + 1;
    }
    proof {
        assert(amounts@.take(n as int) =~= amounts@);
    }
    Some(total)
}

/// Whether the post's own spent set names any nullifier twice.
pub fn has_duplicate_nullifiers(post: &TransferPost) -> (r: bool)
    ensures
        r == !no_duplicates(post.spent_nullifiers@),
{
    let n = post.spent_nullifiers.len();
    let mut i: usize = 0;
    while i < n
        invariant
            i <= n,
            n == post.spent_nullifiers@.len(),
            forall|p: int, q: int|
                0 <= p < q < post.spent_nullifiers@.len() && p < i ==> post.spent_nullifiers@[p]
                    != post.spent_nullifiers@[q],
        decreases n - i,
    {
        let mut j: usize = i + 1;
        while j < n
            invariant
                i < j <= n,
                n == post.spent_nullifiers@.len(),
                forall|q: int|
                    i < q < j ==> post.spent_nullifiers@[i as int] != post.spent_nullifiers@[q],
            decreases n - j,
        {
            if post.spent_nullifiers[i] == post.spent_nullifiers[j] {
                proof {
                    let s = post.spent_nullifiers@;
                    assert(s[i as int] == s[j as int]);
                    assert(!no_duplicates(s));
                }
                return true;
            }
            j = j + 1;
        }
        i = i + 1;
    }
    false
}

/// Whether the post fits the mint shape, executably.
pub fn mint_shape_check(post: &TransferPost) -> (r: bool)
    ensures
        r == mint_shape_ok(*post),
{
    post.asset_id.is_some() && post.sources.len() > 0 && post.sinks.len() == 0
        && post.spent_nullifiers.len() == 0 && post.created_commitments.len() > 0
}

/// Whether the post fits the private-transfer shape, executably.
pub fn private_transfer_shape_check(post: &TransferPost) -> (r: bool)
    ensures
        r == private_transfer_shape_ok(*post),
{
    post.asset_id.is_none() && post.sources.len() == 0 && post.sinks.len() == 0
        && post.spent_nullifiers.len() > 0 && post.created_commitments.len() > 0
}

/// Whether the post fits the reclaim shape, executably.
pub fn reclaim_shape_check(post: &TransferPost) -> (r: bool)
    ensures
        r == reclaim_shape_ok(*post),
{
    post.asset_id.is_some() && post.sources.len() == 0 && post.sinks.len() > 0
        && post.spent_nullifiers.len() > 0 && post.created_commitments.len() == 0
}

} // verus!
