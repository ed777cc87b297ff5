//! Static configuration of a ledger instance: how asset ids split into the
//! native currency and the registered non-native range, and the native
//! currency's existential deposit.

use vstd::prelude::*;

verus! {

/// Asset identifier. The native currency and every registered asset are
/// told apart by id alone.
pub type AssetId = u32;

/// Non-negative fixed-precision amount of one asset.
pub type Balance = u128;

/// Public account identifier.
pub type AccountId = u64;

/// Configuration of the asset-id space and of the native currency.
///
/// Ids below `start_non_native_asset_id` other than `native_asset_id`
/// are never valid; ids at or above it are valid once registered.
#[derive(Clone, Copy, Debug, PartialEq, Eq, Structural)]
pub struct MantaAssetConfig {
    /// The id of the native currency.
    pub native_asset_id: AssetId,
    /// The least id that a registered non-native asset may carry.
    pub start_non_native_asset_id: AssetId,
    /// The least balance a native-currency account may hold and still
    /// exist.
    pub native_existential_deposit: Balance,
}

impl MantaAssetConfig {
    /// The native id lies below the non-native range, so the two kinds of
    /// asset can never share an id.
    pub open spec fn wf(self) -> bool {
        self.native_asset_id < self.start_non_native_asset_id
    }

    pub fn new(
        native_asset_id: AssetId,
        start_non_native_asset_id: AssetId,
        native_existential_deposit: Balance,
    ) -> (r: Self)
        requires
            native_asset_id < start_non_native_asset_id,
        ensures
            r.wf(),
            r.native_asset_id == native_asset_id,
            r.start_non_native_asset_id == start_non_native_asset_id,
            r.native_existential_deposit == native_existential_deposit,
    {
        MantaAssetConfig { native_asset_id, start_non_native_asset_id, native_existential_deposit }
    }
}

} // verus!
