//! The transfer dispatcher: the three public entry points of the shielded
//! ledger — `mint`, `private_transfer` and `reclaim` — each validating a
//! post in a fixed fail-fast order and applying it as one all-or-nothing
//! transition over the public balances and the shielded pool.

use vstd::prelude::*;

use crate::config::AccountId;
use crate::config::AssetId;
use crate::config::Balance;
use crate::config::MantaAssetConfig;
use crate::errors::FungibleLedgerConsequence;
use crate::errors::TransferError;
use crate::fungible::MantaFungibleLedger;
use crate::pool::ShieldedPool;
use crate::post::Asset;
use crate::post::TransferPost;
use crate::validator::checked_sum;
use crate::validator::has_duplicate_nullifiers;
use crate::validator::mint_shape_check;
use crate::validator::mint_shape_ok;
use crate::validator::no_duplicates;
use crate::validator::private_transfer_shape_check;
use crate::validator::private_transfer_shape_ok;
use crate::validator::reclaim_shape_check;
use crate::validator::reclaim_shape_ok;
use crate::validator::sum_of;
use crate::zkp::ProofVerifier;

verus! {

/// What an accepted transition announces to the host.
#[derive(Clone, Copy, Debug, PartialEq, Eq, Structural)]
pub enum Event {
    /// Public value entered the pool: `asset.value` left `source`'s public
    /// balance for the pool's custody account.
    Mint { asset: Asset, source: AccountId },
    /// Shielded value moved inside the pool. Only the submitter is named;
    /// the protocol reveals no shielded party.
    PrivateTransfer { origin: AccountId },
    /// Shielded value left the pool: `asset.value` was credited to
    /// `sink`'s public balance out of the custody account.
    Reclaim { asset: Asset, sink: AccountId },
}

/// How a refused public-side consequence surfaces to the submitter of a
/// post: want of balance keeps its own error, every other cause is opaque.
pub open spec fn consequence_error(c: FungibleLedgerConsequence) -> TransferError {
    match c {
        FungibleLedgerConsequence::InvalidAssetId => TransferError::InvalidAssetId,
        FungibleLedgerConsequence::NoFunds => TransferError::InsufficientPublicBalance,
        FungibleLedgerConsequence::WouldDie => TransferError::InsufficientPublicBalance,
        FungibleLedgerConsequence::BelowMinimum => TransferError::InsufficientPublicBalance,
        FungibleLedgerConsequence::Overflow => TransferError::PublicLedgerInternalError,
        FungibleLedgerConsequence::Frozen => TransferError::PublicLedgerInternalError,
    }
}

fn consequence_error_exec(c: FungibleLedgerConsequence) -> (r: TransferError)
    ensures
        r == consequence_error(c),
{
    match c {
        FungibleLedgerConsequence::InvalidAssetId => TransferError::InvalidAssetId,
        FungibleLedgerConsequence::NoFunds => TransferError::InsufficientPublicBalance,
        FungibleLedgerConsequence::WouldDie => TransferError::InsufficientPublicBalance,
        FungibleLedgerConsequence::BelowMinimum => TransferError::InsufficientPublicBalance,
        FungibleLedgerConsequence::Overflow => TransferError::PublicLedgerInternalError,
        FungibleLedgerConsequence::Frozen => TransferError::PublicLedgerInternalError,
    }
}

/// One confidential ledger instance: the public side, the shielded pool,
/// the proof checker it consults, the pool's own public custody account,
/// and the log of emitted events.
pub struct Ledger<V: ProofVerifier> {
    pub fungible: MantaFungibleLedger,
    pub pool: ShieldedPool,
    pub checker: V,
    /// The public account under which the pool custodies the value backing
    /// all outstanding shielded notes.
    pub custody_account: AccountId,
    pub events: Vec<Event>,
}

impl<V: ProofVerifier> Ledger<V> {
    pub open spec fn wf(self) -> bool {
        &&& self.fungible.wf()
        &&& self.pool.wf()
    }

    /// Whether the checker accepts the post's proof over the post's public
    /// terms.
    pub open spec fn proof_accepted(self, post: TransferPost) -> bool {
        self.checker.spec_verify(
            post.proof,
            post.asset_id,
            post.sources@,
            post.sinks@,
            post.spent_nullifiers@,
            post.created_commitments@,
        )
    }

    /// The outcome `mint` owes for `post` submitted by `origin`: the checks
    /// run in a fixed order and the first failure names the error.
    pub open spec fn mint_decision(self, origin: AccountId, post: TransferPost) -> Result<
        (),
        TransferError,
    > {
        if !mint_shape_ok(post) {
            Err(TransferError::MalformedPost)
        } else if !self.fungible.is_valid_spec(post.asset_id->Some_0) {
            Err(TransferError::InvalidAssetId)
        } else if sum_of(post.sources@) > Balance::MAX {
            Err(TransferError::MalformedPost)
        } else if !self.proof_accepted(post) {
            Err(TransferError::InvalidProof)
        } else {
            match self.fungible.transfer_spec(
                post.asset_id->Some_0,
                origin,
                self.custody_account,
                sum_of(post.sources@) as Balance,
            ) {
                Err(c) => Err(consequence_error(c)),
                Ok(()) => Ok(()),
            }
        }
    }

    /// The outcome `private_transfer` owes for `post` submitted by `origin`.
    pub open spec fn private_transfer_decision(self, origin: AccountId, post: TransferPost) -> Result<
        (),
        TransferError,
    > {
        if !private_transfer_shape_ok(post) {
            Err(TransferError::MalformedPost)
        } else if !no_duplicates(post.spent_nullifiers@) {
            Err(TransferError::DuplicateSpendWithinPost)
        } else if !self.proof_accepted(post) {
            Err(TransferError::InvalidProof)
        } else if !self.pool.none_spent(post.spent_nullifiers@) {
            Err(TransferError::NullifierAlreadySpent)
        } else {
            Ok(())
        }
    }

    /// The outcome `reclaim` owes for `post` submitted by `origin`.
    pub open spec fn reclaim_decision(self, origin: AccountId, post: TransferPost) -> Result<
        (),
        TransferError,
    > {
        if !reclaim_shape_ok(post) {
            Err(TransferError::MalformedPost)
        } else if !self.fungible.is_valid_spec(post.asset_id->Some_0) {
            Err(TransferError::InvalidAssetId)
        } else if !no_duplicates(post.spent_nullifiers@) {
            Err(TransferError::DuplicateSpendWithinPost)
        } else if sum_of(post.sinks@) > Balance::MAX {
            Err(TransferError::MalformedPost)
        } else if !self.proof_accepted(post) {
            Err(TransferError::InvalidProof)
        } else if !self.pool.none_spent(post.spent_nullifiers@) {
            Err(TransferError::NullifierAlreadySpent)
        } else {
            match self.fungible.transfer_spec(
                post.asset_id->Some_0,
                self.custody_account,
                origin,
                sum_of(post.sinks@) as Balance,
            ) {
                Err(c) => Err(consequence_error(c)),
                Ok(()) => Ok(()),
            }
        }
    }

    /// The parts of the ledger a rejected post may not touch: all of them.
    pub open spec fn unchanged_from(self, pre: Self) -> bool {
        &&& self.fungible.balances_unchanged(pre.fungible)
        &&& self.fungible.config == pre.fungible.config
        &&& self.fungible.registrar == pre.fungible.registrar
        &&& self.pool.commitments_spec() == pre.pool.commitments_spec()
        &&& self.pool.nullifiers_spec() == pre.pool.nullifiers_spec()
        &&& self.pool.digest_spec() == pre.pool.digest_spec()
        &&& self.events@ == pre.events@
        &&& self.custody_account == pre.custody_account
        &&& self.checker == pre.checker
    }

    /// The parts no entry point ever touches.
    pub open spec fn frame_fixed(self, pre: Self) -> bool {
        &&& self.fungible.config == pre.fungible.config
        &&& self.fungible.registrar == pre.fungible.registrar
        &&& self.custody_account == pre.custody_account
        &&& self.checker == pre.checker
    }

    pub fn new(config: MantaAssetConfig, custody_account: AccountId, checker: V) -> (r: Self)
        requires
            config.wf(),
        ensures
            r.wf(),
            r.fungible.config == config,
            r.custody_account == custody_account,
            r.checker == checker,
            forall|a: AssetId, c: AccountId| #[trigger] r.fungible.balance_of(a, c) == 0,
            forall|id: AssetId| !r.fungible.registrar.registered(id),
            r.fungible.registrar.next_spec() == config.start_non_native_asset_id,
            r.pool.commitments_spec() == Seq::<u128>::empty(),
            r.pool.nullifiers_spec() == Seq::<u128>::empty(),
            r.events@ == Seq::<Event>::empty(),
    {
        Ledger {
            fungible: MantaFungibleLedger::new(config),
            pool: ShieldedPool::new(),
            checker,
            custody_account,
            events: Vec::new(),
        }
    }

    /// The public balance `account` holds in `asset`.
    pub fn balance(&self, asset: AssetId, account: AccountId) -> (r: Balance)
        ensures
            r == self.fungible.balance_of(asset, account),
    {
        self.fungible.balances.get(asset, account)
    }

    /// The most recently emitted event, if any.
    pub fn last_event(&self) -> (r: Option<Event>)
        ensures
            match r {
                Some(e) => self.events@.len() > 0 && e == self.events@.last(),
                None => self.events@.len() == 0,
            },
    {
        if self.events.len() == 0 {
            None
        } else {
            Some(self.events[self.events.len() - 1])
        }
    }

    /// Deposits `post`'s public sources into the shielded pool: debits the
    /// submitter by their sum, credits the custody account the same
    /// amount, and appends the created commitments. Rejected posts change
    /// nothing.
    pub fn mint(&mut self, origin: AccountId, post: &TransferPost) -> (r: Result<
        (),
        TransferError,
    >)
        requires
            old(self).wf(),
        ensures
            final(self).wf(),
            r == old(self).mint_decision(origin, *post),
            final(self).frame_fixed(*old(self)),
            r is Err ==> final(self).unchanged_from(*old(self)),
            r is Ok ==> {
                let asset = post.asset_id->Some_0;
                let total = sum_of(post.sources@) as Balance;
                &&& final(self).pool.commitments_spec() == old(self).pool.commitments_spec()
                    + post.created_commitments@
                &&& final(self).pool.nullifiers_spec() == old(self).pool.nullifiers_spec()
                &&& final(self).events@ == old(self).events@.push(
                    Event::Mint { asset: Asset { id: asset, value: total }, source: origin },
                )
                &&& final(self).fungible.balances_unchanged_but(
                    old(self).fungible,
                    asset,
                    origin,
                    old(self).custody_account,
                )
                &&& origin != old(self).custody_account ==> {
                    &&& final(self).fungible.balance_of(asset, origin) == old(
                        self,
                    ).fungible.balance_of(asset, origin) - total
                    &&& final(self).fungible.balance_of(asset, old(self).custody_account) == old(
                        self,
                    ).fungible.balance_of(asset, old(self).custody_account) + total
                }
                &&& origin == old(self).custody_account ==> final(self).fungible.balances_unchanged(
                    old(self).fungible,
                )
            },
    {
        if !mint_shape_check(post) {
            return Err(TransferError::MalformedPost);
        }
        let asset = match post.asset_id {
            Some(a) => a,
            None => {
                // The mint shape guarantees an asset id.
                proof {
                    assert(false);
                }
                0
            },
        };
        if !self.fungible.is_valid(asset) {
            return Err(TransferError::InvalidAssetId);
        }
        let total = match checked_sum(&post.sources) {
            Some(t) => t,
            None => {
                return Err(TransferError::MalformedPost);
            },
        };
        if !self.checker.verify(post) {
            return Err(TransferError::InvalidProof);
        }
        match self.fungible.transfer(asset, origin, self.custody_account, total) {
            Err(c) => Err(consequence_error_exec(c)),
            Ok(()) => {
                self.pool.append_commitments(&post.created_commitments);
                self.events.push(
                    Event::Mint { asset: Asset { id: asset, value: total }, source: origin },
                );
                Ok(())
            },
        }
    }

    /// Moves shielded value inside the pool: spends the post's nullifiers
    /// and appends its created commitments. No public balance is touched.
    /// Rejected posts change nothing.
    pub fn private_transfer(&mut self, origin: AccountId, post: &TransferPost) -> (r: Result<
        (),
        TransferError,
    >)
        requires
            old(self).wf(),
        ensures
            final(self).wf(),
            r == old(self).private_transfer_decision(origin, *post),
            final(self).frame_fixed(*old(self)),
            final(self).fungible.balances_unchanged(old(self).fungible),
            r is Err ==> final(self).unchanged_from(*old(self)),
            r is Ok ==> {
                &&& final(self).pool.nullifiers_spec() == old(self).pool.nullifiers_spec()
                    + post.spent_nullifiers@
                &&& final(self).pool.commitments_spec() == old(self).pool.commitments_spec()
                    + post.created_commitments@
                &&& final(self).events@ == old(self).events@.push(
                    Event::PrivateTransfer { origin },
                )
            },
    {
        if !private_transfer_shape_check(post) {
            return Err(TransferError::MalformedPost);
        }
        if has_duplicate_nullifiers(post) {
            return Err(TransferError::DuplicateSpendWithinPost);
        }
        if !self.checker.verify(post) {
            return Err(TransferError::InvalidProof);
        }
        match self.pool.insert_nullifiers(&post.spent_nullifiers) {
            Err(_) => Err(TransferError::NullifierAlreadySpent),
            Ok(()) => {
                self.pool.append_commitments(&post.created_commitments);
                self.events.push(Event::PrivateTransfer { origin });
                Ok(())
            },
        }
    }

    /// Withdraws shielded value to the submitter's public balance: spends
    /// the post's nullifiers and credits the sum of its sinks out of the
    /// custody account. Rejected posts change nothing.
    pub fn reclaim(&mut self, origin: AccountId, post: &TransferPost) -> (r: Result<
        (),
        TransferError,
    >)
        requires
            old(self).wf(),
        ensures
            final(self).wf(),
            r == old(self).reclaim_decision(origin, *post),
            final(self).frame_fixed(*old(self)),
            r is Err ==> final(self).unchanged_from(*old(self)),
            r is Ok ==> {
                let asset = post.asset_id->Some_0;
                let total = sum_of(post.sinks@) as Balance;
                &&& final(self).pool.nullifiers_spec() == old(self).pool.nullifiers_spec()
                    + post.spent_nullifiers@
                &&& final(self).pool.commitments_spec() == old(self).pool.commitments_spec()
                &&& final(self).events@ == old(self).events@.push(
                    Event::Reclaim { asset: Asset { id: asset, value: total }, sink: origin },
                )
                &&& final(self).fungible.balances_unchanged_but(
                    old(self).fungible,
                    asset,
                    old(self).custody_account,
                    origin,
                )
                &&& origin != old(self).custody_account ==> {
                    &&& final(self).fungible.balance_of(asset, origin) == old(
                        self,
                    ).fungible.balance_of(asset, origin) + total
                    &&& final(self).fungible.balance_of(asset, old(self).custody_account) == old(
                        self,
                    ).fungible.balance_of(asset, old(self).custody_account) - total
                }
                &&& origin == old(self).custody_account ==> final(self).fungible.balances_unchanged(
                    old(self).fungible,
                )
            },
    {
        if !reclaim_shape_check(post) {
            return Err(TransferError::MalformedPost);
        }
        let asset = match post.asset_id {
            Some(a) => a,
            None => {
                // The reclaim shape guarantees an asset id.
                proof {
                    assert(false);
                }
                0
            },
        };
        if !self.fungible.is_valid(asset) {
            return Err(TransferError::InvalidAssetId);
        }
        if has_duplicate_nullifiers(post) {
            return Err(TransferError::DuplicateSpendWithinPost);
        }
        let total = match checked_sum(&post.sinks) {
            Some(t) => t,
            None => {
                return Err(TransferError::MalformedPost);
            },
        };
        if !self.checker.verify(post) {
            return Err(TransferError::InvalidProof);
        }
        if self.pool.contains_any_nullifier(&post.spent_nullifiers) {
            return Err(TransferError::NullifierAlreadySpent);
        }
        match self.fungible.transfer(asset, self.custody_account, origin, total) {
            Err(c) => Err(consequence_error_exec(c)),
            Ok(()) => {
                match self.pool.insert_nullifiers(&post.spent_nullifiers) {
                    Err(_) => {
                        // Freshness was checked before the public transfer,
                        // and the transfer does not touch the pool.
                        proof {
                            assert(false);
                        }
                        Err(TransferError::NullifierAlreadySpent)
                    },
                    Ok(()) => {
                        self.events.push(
                            Event::Reclaim {
                                asset: Asset { id: asset, value: total },
                                sink: origin,
                            },
                        );
                        Ok(())
                    },
                }
            },
        }
    }
}

/// No post is accepted, by any of the three entry points, unless its proof
/// verifies against exactly its declared public terms: proof acceptance is
/// necessary for any value to move.
pub proof fn lemma_acceptance_requires_valid_proof<V: ProofVerifier>(
    l: Ledger<V>,
    origin: AccountId,
    post: TransferPost,
)
    requires
        l.mint_decision(origin, post) is Ok || l.private_transfer_decision(origin, post) is Ok
            || l.reclaim_decision(origin, post) is Ok,
    ensures
        l.proof_accepted(post),
{
}

/// Resubmitting a private transfer whose nullifiers were accepted — by
/// anybody, against the grown spent set — always fails with
/// `NullifierAlreadySpent`; nothing is mutated on that rejection.
pub proof fn lemma_private_transfer_resubmission_rejected<V: ProofVerifier>(
    pre: Ledger<V>,
    accepted: Ledger<V>,
    origin: AccountId,
    resubmitter: AccountId,
    post: TransferPost,
)
    requires
        pre.private_transfer_decision(origin, post) is Ok,
        accepted.checker == pre.checker,
        accepted.pool.nullifiers_spec() == pre.pool.nullifiers_spec() + post.spent_nullifiers@,
    ensures
        accepted.private_transfer_decision(resubmitter, post) == Err::<(), TransferError>(
            TransferError::NullifierAlreadySpent,
        ),
{
    let ns = post.spent_nullifiers@;
    let base = pre.pool.nullifiers_spec().len() as int;
    assert(accepted.pool.nullifiers_spec()[base] == ns[0]);
    assert(accepted.pool.spent(ns[0]));
    assert(!accepted.pool.none_spent(ns));
}

/// Resubmitting a reclaim whose nullifiers were accepted — by anybody,
/// against the grown spent set — always fails with
/// `NullifierAlreadySpent`, whatever became of the public balances.
pub proof fn lemma_reclaim_resubmission_rejected<V: ProofVerifier>(
    pre: Ledger<V>,
    accepted: Ledger<V>,
    origin: AccountId,
    resubmitter: AccountId,
    post: TransferPost,
)
    requires
        pre.reclaim_decision(origin, post) is Ok,
        accepted.checker == pre.checker,
        accepted.fungible.config == pre.fungible.config,
        accepted.fungible.registrar == pre.fungible.registrar,
        accepted.pool.nullifiers_spec() == pre.pool.nullifiers_spec() + post.spent_nullifiers@,
    ensures
        accepted.reclaim_decision(resubmitter, post) == Err::<(), TransferError>(
            TransferError::NullifierAlreadySpent,
        ),
{
    let ns = post.spent_nullifiers@;
    let base = pre.pool.nullifiers_spec().len() as int;
    assert(accepted.pool.nullifiers_spec()[base] == ns[0]);
    assert(accepted.pool.spent(ns[0]));
    assert(!accepted.pool.none_spent(ns));
}

} // verus!
