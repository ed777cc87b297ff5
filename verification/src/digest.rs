//! The accumulator digest: a deterministic, order-sensitive fold over the
//! commitment sequence. The digest of a pool depends only on the final
//! ordered sequence of commitments, never on how appends were batched.

use vstd::prelude::*;

verus! {

/// Seed of the fold: the digest of the empty sequence.
pub const DIGEST_SEED: u64 = 0xcbf2_9ce4_8422_2325;

/// Odd multiplier that makes the fold order-sensitive.
pub const DIGEST_MUL: u64 = 0x0000_0100_0000_01b3;

/// One fold step: the running digest is multiplied and both halves of the
/// commitment are added, all modulo 2^64.
pub open spec fn digest_step(d: u64, c: u128) -> u64 {
    d.wrapping_mul(DIGEST_MUL).wrapping_add((c >> 64u128) as u64).wrapping_add(c as u64)
}

/// Left fold of `digest_step` over `s`, started at `d`.
pub open spec fn fold_digest(d: u64, s: Seq<u128>) -> u64
    decreases s.len(),
{
    if s.len() == 0 {
        d
    } else {
        digest_step(fold_digest(d, s.drop_last()), s.last())
    }
}

/// The digest of a commitment sequence.
pub open spec fn digest_of(s: Seq<u128>) -> u64 {
    fold_digest(DIGEST_SEED, s)
}

/// Folding a concatenation equals folding the second part on top of the
/// fold of the first: an append continues the running digest.
pub proof fn lemma_fold_digest_concat(d: u64, s: Seq<u128>, t: Seq<u128>)
    ensures
        fold_digest(d, s + t) == fold_digest(fold_digest(d, s), t),
    decreases t.len(),
{
    if t.len() == 0 {
        assert(s + t =~= s);
    } else {
        lemma_fold_digest_concat(d, s, t.drop_last());
        assert((s + t).drop_last() =~= s + t.drop_last());
        assert((s + t).last() == t.last());
    }
}

/// The digest depends only on the final ordered commitment sequence:
/// appending `b1` then `b2` and appending the single batch `b1 + b2`
/// reach the same digest.
pub proof fn lemma_digest_batching(s: Seq<u128>, b1: Seq<u128>, b2: Seq<u128>)
    ensures
        digest_of((s + b1) + b2) == digest_of(s + (b1 + b2)),
{
    assert((s + b1) + b2 =~= s + (b1 + b2));
}

/// One fold step, executably.
pub fn digest_step_exec(d: u64, c: u128) -> (r: u64)
    ensures
        r == digest_step(d, c),
{
    proof {
        assert(c >> 64u128 <= u64::MAX as u128) by (bit_vector);
    }
    let hi = (c >> 64u128) as u64;
    let lo = #[verifier::truncate] (c as u64);
    d.wrapping_mul(DIGEST_MUL).wrapping_add(hi).wrapping_add(lo)
}

/// Continues the running digest `d` over every element of `items` in order.
pub fn fold_digest_exec(d: u64, items: &Vec<u128>) -> (r: u64)
    ensures
        r == fold_digest(d, items@),
{
    let mut acc = d;
    let n = items.len();
    let mut i: usize = 0;
    proof {
        assert(items@.take(0) =~= Seq::<u128>::empty());
    }
    while i < n
        invariant
            i <= n,
            n == items@.len(),
            acc == fold_digest(d, items@.take(i as int)),
        decreases n - i,
    {
        acc = digest_step_exec(acc, items[i]);
        proof {
            let t = items@.take(i as int + 1);
            assert(t.drop_last() =~= items@.take(i as int));
            assert(t.last() == items@[i as int]);
        }
        i = i + 1;
    }
    proof {
        assert(items@.take(n as int) =~= items@);
    }
    acc
}

} // verus!
