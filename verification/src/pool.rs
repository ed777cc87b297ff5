//! The shielded pool: an append-only commitment accumulator with its
//! running digest, and the set of spent nullifiers.

use vstd::prelude::*;

use crate::digest::digest_of;
use crate::digest::fold_digest_exec;
use crate::digest::lemma_fold_digest_concat;
use crate::digest::DIGEST_SEED;
use crate::errors::DoubleSpend;
use crate::validator::no_duplicates;

verus! {

/// A commitment: an opaque fixed-size binding of one shielded note.
pub type Commitment = u128;

/// A nullifier: the opaque tag a shielded note reveals when it is spent.
pub type Nullifier = u128;

/// The authoritative shielded state: which confidential notes exist (the
/// ordered commitment accumulator) and which have been spent (the
/// nullifier set). Both grow monotonically and are never pruned.
pub struct ShieldedPool {
    commitments: Vec<Commitment>,
    nullifiers: Vec<Nullifier>,
    digest: u64,
}

impl ShieldedPool {
    pub closed spec fn commitments_spec(self) -> Seq<Commitment> {
        self.commitments@
    }

    pub closed spec fn nullifiers_spec(self) -> Seq<Nullifier> {
        self.nullifiers@
    }

    pub closed spec fn digest_spec(self) -> u64 {
        self.digest
    }

    /// Whether `n` has been spent.
    pub open spec fn spent(self, n: Nullifier) -> bool {
        self.nullifiers_spec().contains(n)
    }

    /// Whether none of `ns` has been spent.
    pub open spec fn none_spent(self, ns: Seq<Nullifier>) -> bool {
        forall|k: int| 0 <= k < ns.len() ==> !self.spent(#[trigger] ns[k])
    }

    /// A nullifier is inserted at most once, and the digest always equals
    /// the digest of the whole accumulator.
    pub open spec fn wf(self) -> bool {
        &&& no_duplicates(self.nullifiers_spec())
        &&& self.digest_spec() == digest_of(self.commitments_spec())
    }

    pub fn new() -> (r: Self)
        ensures
            r.wf(),
            r.commitments_spec() == Seq::<Commitment>::empty(),
            r.nullifiers_spec() == Seq::<Nullifier>::empty(),
    {
        ShieldedPool { commitments: Vec::new(), nullifiers: Vec::new(), digest: DIGEST_SEED }
    }

    /// How many commitments the accumulator holds.
    pub fn commitment_count(&self) -> (r: usize)
        ensures
            r == self.commitments_spec().len(),
    {
        self.commitments.len()
    }

    /// The digest of the accumulator's current contents.
    pub fn digest(&self) -> (r: u64)
        ensures
            r == self.digest_spec(),
    {
        self.digest
    }

    /// Whether `n` is in the spent set.
    pub fn contains_nullifier(&self, n: Nullifier) -> (r: bool)
        ensures
            r == self.spent(n),
    {
        let len = self.nullifiers.len();
        let mut i: usize = 0;
        while i < len
            invariant
                i <= len,
                len == self.nullifiers@.len(),
                forall|k: int| 0 <= k < i ==> self.nullifiers@[k] != n,
            decreases len - i,
        {
            if self.nullifiers[i] == n {
                return true;
            }
            i = i + 1;
        }
        false
    }

    /// Whether any of `ns` is in the spent set.
    pub fn contains_any_nullifier(&self, ns: &Vec<Nullifier>) -> (r: bool)
        ensures
            r == exists|k: int| 0 <= k < ns@.len() && self.spent(ns@[k]),
    {
        let len = ns.len();
        let mut i: usize = 0;
        while i < len
            invariant
                i <= len,
                len == ns@.len(),
                forall|k: int| 0 <= k < i ==> !self.spent(ns@[k]),
            decreases len - i,
        {
            if self.contains_nullifier(ns[i]) {
                return true;
            }
            i = i + 1;
        }
        false
    }

    /// Marks every nullifier of `ns` spent, atomically: when any of them is
    /// already in the spent set, none is inserted and the pool is
    /// unchanged. `ns` stands for a set, so it carries no duplicates.
    pub fn insert_nullifiers(&mut self, ns: &Vec<Nullifier>) -> (r: Result<(), DoubleSpend>)
        requires
            old(self).wf(),
            no_duplicates(ns@),
        ensures
            final(self).wf(),
            r is Ok <==> old(self).none_spent(ns@),
            r is Ok ==> final(self).nullifiers_spec() == old(self).nullifiers_spec() + ns@,
            r is Err ==> final(self).nullifiers_spec() == old(self).nullifiers_spec(),
            final(self).commitments_spec() == old(self).commitments_spec(),
            final(self).digest_spec() == old(self).digest_spec(),
    {
        if self.contains_any_nullifier(ns) {
            return Err(DoubleSpend);
        }
        let len = ns.len();
        let mut i: usize = 0;
        proof {
            assert(old(self).nullifiers@ + ns@.take(0) =~= old(self).nullifiers@);
        }
        while i < len
            invariant
                i <= len,
                len == ns@.len(),
                self.nullifiers@ == old(self).nullifiers@ + ns@.take(i as int),
                self.commitments@ == old(self).commitments@,
                self.digest == old(self).digest,
                no_duplicates(old(self).nullifiers@),
                no_duplicates(ns@),
                forall|k: int| 0 <= k < ns@.len() ==> !old(self).spent(#[trigger] ns@[k]),
            decreases len - i,
        {
            self.nullifiers.push(ns[i]);
            proof {
                assert(self.nullifiers@ =~= old(self).nullifiers@ + ns@.take(i as int + 1));
            }
            i = i + 1;
        }
        proof {
            assert(ns@.take(len as int) =~= ns@);
            let merged = old(self).nullifiers@ + ns@;
            assert forall|p: int, q: int| 0 <= p < q < merged.len() implies merged[p] != merged[q] by {
                let base = old(self).nullifiers@.len();
                if q < base {
                } else if p >= base {
                    assert(merged[p] == ns@[p - base]);
                    assert(merged[q] == ns@[q - base]);
                } else {
                    assert(merged[q] == ns@[q - base]);
                    assert(!old(self).spent(ns@[q - base]));
                    assert(old(self).nullifiers@.contains(merged[p]));
                }
            }
        }
        Ok(())
    }

    /// Appends `cs` to the accumulator in order and continues the running
    /// digest over them. Nothing else changes; an append cannot fail.
    pub fn append_commitments(&mut self, cs: &Vec<Commitment>)
        requires
            old(self).wf(),
        ensures
            final(self).wf(),
            final(self).commitments_spec() == old(self).commitments_spec() + cs@,
            final(self).nullifiers_spec() == old(self).nullifiers_spec(),
            final(self).digest_spec() == digest_of(final(self).commitments_spec()),
    {
        self.digest = fold_digest_exec(self.digest, cs);
        let len = cs.len();
        let mut i: usize = 0;
        proof {
            assert(old(self).commitments@ + cs@.take(0) =~= old(self).commitments@);
        }
        while i < len
            invariant
                i <= len,
                len == cs@.len(),
                self.commitments@ == old(self).commitments@ + cs@.take(i as int),
                self.nullifiers@ == old(self).nullifiers@,
                self.digest == crate::digest::fold_digest(old(self).digest_spec(), cs@),
            decreases len - i,
        {
            self.commitments.push(cs[i]);
            proof {
                assert(self.commitments@ =~= old(self).commitments@ + cs@.take(i as int + 1));
            }
            i = i + 1;
        }
        proof {
            assert(cs@.take(len as int) =~= cs@);
            lemma_fold_digest_concat(DIGEST_SEED, old(self).commitments@, cs@);
        }
    }
}

/// Two pools fed the same commitment sequence in the same order reach the
/// same digest, however their appends were batched.
pub proof fn lemma_digest_deterministic(a: ShieldedPool, b: ShieldedPool)
    requires
        a.wf(),
        b.wf(),
        a.commitments_spec() == b.commitments_spec(),
    ensures
        a.digest_spec() == b.digest_spec(),
{
}

} // verus!
