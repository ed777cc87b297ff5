//! Transfer posts: the atomic unit of a shielded-ledger transition, and the
//! public asset amounts it speaks of.

use vstd::prelude::*;

use crate::config::AssetId;
use crate::config::Balance;
use crate::pool::Commitment;
use crate::pool::Nullifier;

verus! {

/// A proof attesting that a post creates and destroys no value and owns
/// the notes it spends. Opaque to the ledger: only the verification
/// contract reads it.
pub type Proof = u128;

/// An asset id paired with an amount of it.
#[derive(Clone, Copy, Debug, PartialEq, Eq, Structural)]
pub struct Asset {
    pub id: AssetId,
    pub value: Balance,
}

impl Asset {
    pub fn new(id: AssetId, value: Balance) -> (r: Self)
        ensures
            r == (Asset { id, value }),
    {
        Asset { id, value }
    }
}

/// One requested shielded-ledger transition: public amounts entering
/// (`sources`) and leaving (`sinks`), shielded notes spent
/// (`spent_nullifiers`) and created (`created_commitments`), and the proof
/// over exactly those public terms. Constructed off-ledger, submitted
/// once; accepted posts mutate the ledger atomically, rejected posts
/// change nothing.
#[derive(Clone, Debug)]
pub struct TransferPost {
    /// The asset moved across the public boundary; absent when the post
    /// touches no public balance.
    pub asset_id: Option<AssetId>,
    /// Public amounts debited from the submitter.
    pub sources: Vec<Balance>,
    /// Public amounts credited to the submitter.
    pub sinks: Vec<Balance>,
    /// Nullifiers of the shielded notes the post spends.
    pub spent_nullifiers: Vec<Nullifier>,
    /// Commitments of the shielded notes the post creates.
    pub created_commitments: Vec<Commitment>,
    /// The zero-knowledge proof over the post's public terms.
    pub proof: Proof,
}

} // verus!
