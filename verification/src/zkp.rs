//! The proof-verification contract. The zero-knowledge proof system is an
//! external collaborator: the ledger consumes it only through the
//! [`ProofVerifier`] trait, which fixes what the verifier may look at —
//! the post's proof and its public terms, nothing else. A simple
//! instantiation, [`BindingVerifier`], binds the proof value to a digest
//! of exactly those terms.

use vstd::prelude::*;

use crate::config::AssetId;
use crate::config::Balance;
use crate::digest::digest_step;
use crate::digest::digest_step_exec;
use crate::digest::fold_digest;
use crate::digest::fold_digest_exec;
use crate::digest::DIGEST_SEED;
use crate::pool::Commitment;
use crate::pool::Nullifier;
use crate::post::Proof;
use crate::post::TransferPost;

verus! {

/// Stateless verification of a proof against a post's public terms: the
/// asset id, the public source and sink amounts, the nullifiers spent and
/// the commitments created. Verification is pure: its outcome is a
/// function of those terms and of the verifier value alone, never of
/// ledger state.
pub trait ProofVerifier: Sized {
    /// What the verifier accepts, as a predicate over the public terms.
    spec fn spec_verify(
        self,
        proof: Proof,
        asset_id: Option<AssetId>,
        sources: Seq<Balance>,
        sinks: Seq<Balance>,
        spent_nullifiers: Seq<Nullifier>,
        created_commitments: Seq<Commitment>,
    ) -> bool;

    /// Checks the post's proof against exactly the post's public terms.
    fn verify(&self, post: &TransferPost) -> (r: bool)
        ensures
            r == self.spec_verify(
                post.proof,
                post.asset_id,
                post.sources@,
                post.sinks@,
                post.spent_nullifiers@,
                post.created_commitments@,
            ),
    ;
}

/// One step of the binding fold for the optional asset id: `None` and
/// `Some(id)` absorb distinct values.
pub open spec fn absorb_asset_id(d: u64, asset_id: Option<AssetId>) -> u64 {
    match asset_id {
        None => digest_step(d, 0),
        Some(id) => digest_step(d, (1 + id) as u128),
    }
}

/// Absorbs one sequence of public terms, length first, so that differently
/// split terms never collide.
pub open spec fn absorb_terms(d: u64, terms: Seq<u128>) -> u64 {
    fold_digest(digest_step(d, terms.len() as u128), terms)
}

/// The proof value that the binding verifier demands for the given public
/// terms: a digest over all of them in a fixed order.
pub open spec fn binding_of(
    asset_id: Option<AssetId>,
    sources: Seq<Balance>,
    sinks: Seq<Balance>,
    spent_nullifiers: Seq<Nullifier>,
    created_commitments: Seq<Commitment>,
) -> Proof {
    absorb_terms(
        absorb_terms(
            absorb_terms(
                absorb_terms(absorb_asset_id(DIGEST_SEED, asset_id), sources),
                sinks,
            ),
            spent_nullifiers,
        ),
        created_commitments,
    ) as Proof
}

/// Continues the binding fold over one sequence of terms, executably.
fn absorb_terms_exec(d: u64, terms: &Vec<u128>) -> (r: u64)
    ensures
        r == absorb_terms(d, terms@),
{
    let tagged = digest_step_exec(d, terms.len() as u128);
    fold_digest_exec(tagged, terms)
}

/// The proof value the binding verifier accepts for the given public
/// terms. An off-ledger prover for the binding scheme: tests and hosts
/// use it to assemble posts the [`BindingVerifier`] accepts.
pub fn binding_proof(
    asset_id: Option<AssetId>,
    sources: &Vec<Balance>,
    sinks: &Vec<Balance>,
    spent_nullifiers: &Vec<Nullifier>,
    created_commitments: &Vec<Commitment>,
) -> (r: Proof)
    ensures
        r == binding_of(asset_id, sources@, sinks@, spent_nullifiers@, created_commitments@),
{
    let d0 = match asset_id {
        None => digest_step_exec(DIGEST_SEED, 0),
        Some(id) => digest_step_exec(DIGEST_SEED, 1 + id as u128),
    };
    let d1 = absorb_terms_exec(d0, sources);
    let d2 = absorb_terms_exec(d1, sinks);
    let d3 = absorb_terms_exec(d2, spent_nullifiers);
    let d4 = absorb_terms_exec(d3, created_commitments);
    d4 as Proof
}

/// A verifier that accepts a post exactly when its proof equals the
/// binding digest of its public terms.
#[derive(Clone, Copy, Debug, PartialEq, Eq, Structural)]
pub struct BindingVerifier;

impl ProofVerifier for BindingVerifier {
    open spec fn spec_verify(
        self,
        proof: Proof,
        asset_id: Option<AssetId>,
        sources: Seq<Balance>,
        sinks: Seq<Balance>,
        spent_nullifiers: Seq<Nullifier>,
        created_commitments: Seq<Commitment>,
    ) -> bool {
        proof == binding_of(asset_id, sources, sinks, spent_nullifiers, created_commitments)
    }

    fn verify(&self, post: &TransferPost) -> (r: bool) {
        let expected = binding_proof(
            post.asset_id,
            &post.sources,
            &post.sinks,
            &post.spent_nullifiers,
            &post.created_commitments,
        );
        post.proof == expected
    }
}

} // verus!
