//! Error taxonomies of the public-side dispatcher and of the transfer core.

use vstd::prelude::*;

verus! {

/// Outcome of a public-side fungible-ledger operation that could not be
/// performed. The same taxonomy is presented whichever backing store
/// (native currency or registered asset) the operation was routed to.
#[derive(Clone, Copy, Debug, PartialEq, Eq, Structural)]
pub enum FungibleLedgerConsequence {
    /// The asset id is neither the native id nor a registered non-native id.
    InvalidAssetId,
    /// A deposit would leave the receiving account below the minimum
    /// balance the backing store demands of an existing account.
    BelowMinimum,
    /// A deposit would push the receiving account's balance past the
    /// largest representable balance.
    Overflow,
    /// The source account's balance is smaller than the requested amount.
    NoFunds,
    /// A withdrawal would leave the source account alive but below the
    /// minimum balance, or would reap an account that must stay alive.
    WouldDie,
    /// The asset's metadata marks it frozen: nothing may move.
    Frozen,
}

/// Typed failure of one of the three transfer entry points. Every failure
/// is detected before any mutation: a rejected post changes no state.
#[derive(Clone, Copy, Debug, PartialEq, Eq, Structural)]
pub enum TransferError {
    /// The post names an asset id that the ledger does not accept.
    InvalidAssetId,
    /// The public-side debit or credit would fail for want of balance.
    InsufficientPublicBalance,
    /// The public-side ledger refused the operation for another reason;
    /// the cause is not further decomposed for the caller.
    PublicLedgerInternalError,
    /// The post lists the same nullifier twice among its own spent notes.
    DuplicateSpendWithinPost,
    /// A nullifier of the post is already in the spent set.
    NullifierAlreadySpent,
    /// The proof does not verify against the post's public terms.
    InvalidProof,
    /// The post's shape does not fit the requested operation, or its
    /// public amounts are not internally consistent.
    MalformedPost,
}

/// Failure of an administrative registry operation.
#[derive(Clone, Copy, Debug, PartialEq, Eq, Structural)]
pub enum RegistryError {
    /// The asset id has not been registered.
    UnknownAssetId,
}

/// Failure of a nullifier-set insertion: at least one nullifier of the
/// batch was already present, and none was inserted.
#[derive(Clone, Copy, Debug, PartialEq, Eq, Structural)]
pub struct DoubleSpend;

} // verus!
