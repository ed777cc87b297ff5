//! The fungible-ledger dispatcher: one operation set over the public
//! balances, routed by asset id to either the native currency's rules or a
//! registered asset's rules, with one error taxonomy for both.

use vstd::prelude::*;

use crate::balances::BalanceStore;
use crate::config::AccountId;
use crate::config::AssetId;
use crate::config::Balance;
use crate::config::MantaAssetConfig;
use crate::errors::FungibleLedgerConsequence;
use crate::registry::AssetMetadata;
use crate::registry::MantaAssetRegistrar;

verus! {

/// Which backing store an operation on a valid asset id is routed to: the
/// native currency's ledger, or the multi-asset ledger of one registered
/// asset. Exactly these two kinds of store exist.
#[derive(Clone, Copy, Debug, PartialEq, Eq, Structural)]
pub enum AssetRoute {
    NativeCurrency,
    RegisteredAsset(AssetId),
}

/// The public side of the ledger: configuration, asset registry and the
/// balance store, with the four dispatcher operations over them.
pub struct MantaFungibleLedger {
    pub config: MantaAssetConfig,
    pub registrar: MantaAssetRegistrar,
    pub balances: BalanceStore,
}

impl MantaFungibleLedger {
    /// The registry allocates exactly from the configured non-native range,
    /// so a registered id never collides with the native id.
    pub open spec fn wf(self) -> bool {
        &&& self.config.wf()
        &&& self.registrar.wf()
        &&& self.registrar.start_spec() == self.config.start_non_native_asset_id
    }

    pub open spec fn balance_of(self, asset: AssetId, account: AccountId) -> Balance {
        self.balances.balance_of(asset, account)
    }

    /// Where an operation on `asset` is routed: to the native currency's
    /// ledger for the native id, to the multi-asset ledger for a
    /// registered id in the non-native range, and nowhere otherwise.
    pub open spec fn route_spec(self, asset: AssetId) -> Option<AssetRoute> {
        if asset == self.config.native_asset_id {
            Some(AssetRoute::NativeCurrency)
        } else if asset >= self.config.start_non_native_asset_id && self.registrar.registered(
            asset,
        ) {
            Some(AssetRoute::RegisteredAsset(asset))
        } else {
            None
        }
    }

    /// An asset id is valid when it is the native id, or lies in the
    /// non-native range and has been registered: exactly when some store
    /// answers for it.
    pub open spec fn is_valid_spec(self, asset: AssetId) -> bool {
        self.route_spec(asset) is Some
    }

    /// The route `asset` takes, or `None` for an invalid id.
    pub fn route(&self, asset: AssetId) -> (r: Option<AssetRoute>)
        ensures
            r == self.route_spec(asset),
    {
        if asset == self.config.native_asset_id {
            Some(AssetRoute::NativeCurrency)
        } else if asset >= self.config.start_non_native_asset_id && self.registrar.is_registered(
            asset,
        ) {
            Some(AssetRoute::RegisteredAsset(asset))
        } else {
            None
        }
    }

    /// Whether operations on the asset are suspended. The native currency
    /// is never frozen; a registered asset is frozen by its metadata.
    pub open spec fn frozen_spec(self, asset: AssetId) -> bool {
        asset != self.config.native_asset_id && match self.registrar.metadata_spec(asset) {
            Some(m) => m.is_frozen,
            None => false,
        }
    }

    /// The least balance an account of `asset` may hold and still exist:
    /// the existential deposit for the native currency, the registered
    /// minimum for a registered asset.
    pub open spec fn min_balance_spec(self, asset: AssetId) -> Balance {
        if asset == self.config.native_asset_id {
            self.config.native_existential_deposit
        } else {
            match self.registrar.metadata_spec(asset) {
                Some(m) => m.min_balance,
                None => 0,
            }
        }
    }

    /// Whether a deposit of `amount` to `account` would succeed, and the
    /// consequence when it would not. Checks run in a fixed order:
    /// validity, frozen status, overflow, then sufficiency of a freshly
    /// created account.
    pub open spec fn can_deposit_spec(
        self,
        asset: AssetId,
        account: AccountId,
        amount: Balance,
    ) -> Result<(), FungibleLedgerConsequence> {
        if !self.is_valid_spec(asset) {
            Err(FungibleLedgerConsequence::InvalidAssetId)
        } else if self.frozen_spec(asset) {
            Err(FungibleLedgerConsequence::Frozen)
        } else if amount == 0 {
            Ok(())
        } else if self.balance_of(asset, account) + amount > Balance::MAX {
            Err(FungibleLedgerConsequence::Overflow)
        } else if self.balance_of(asset, account) == 0 && amount < self.min_balance_spec(asset) {
            Err(FungibleLedgerConsequence::BelowMinimum)
        } else {
            Ok(())
        }
    }

    /// Whether a withdrawal of `amount` from `account` would succeed. A
    /// withdrawal may sweep the account to zero, but may not leave it
    /// alive below the asset's minimum balance.
    pub open spec fn can_withdraw_spec(
        self,
        asset: AssetId,
        account: AccountId,
        amount: Balance,
    ) -> Result<(), FungibleLedgerConsequence> {
        if !self.is_valid_spec(asset) {
            Err(FungibleLedgerConsequence::InvalidAssetId)
        } else if self.frozen_spec(asset) {
            Err(FungibleLedgerConsequence::Frozen)
        } else if amount == 0 {
            Ok(())
        } else if self.balance_of(asset, account) < amount {
            Err(FungibleLedgerConsequence::NoFunds)
        } else if self.balance_of(asset, account) - amount > 0 && self.balance_of(asset, account)
            - amount < self.min_balance_spec(asset) {
            Err(FungibleLedgerConsequence::WouldDie)
        } else {
            Ok(())
        }
    }

    /// Whether moving `amount` from `source` to `dest` would succeed. For
    /// the native currency the source account is kept alive: the transfer
    /// fails rather than reap it. A registered asset's source may be swept
    /// to zero. The destination must come out of the transfer viable.
    pub open spec fn transfer_spec(
        self,
        asset: AssetId,
        source: AccountId,
        dest: AccountId,
        amount: Balance,
    ) -> Result<(), FungibleLedgerConsequence> {
        if !self.is_valid_spec(asset) {
            Err(FungibleLedgerConsequence::InvalidAssetId)
        } else if self.frozen_spec(asset) {
            Err(FungibleLedgerConsequence::Frozen)
        } else if self.balance_of(asset, source) < amount {
            Err(FungibleLedgerConsequence::NoFunds)
        } else if source == dest {
            Ok(())
        } else if asset == self.config.native_asset_id && self.balance_of(asset, source) - amount
            < self.config.native_existential_deposit {
            Err(FungibleLedgerConsequence::WouldDie)
        } else if asset != self.config.native_asset_id && self.balance_of(asset, source) - amount
            > 0 && self.balance_of(asset, source) - amount < self.min_balance_spec(asset) {
            Err(FungibleLedgerConsequence::WouldDie)
        } else if self.balance_of(asset, dest) + amount > Balance::MAX {
            Err(FungibleLedgerConsequence::Overflow)
        } else if self.balance_of(asset, dest) == 0 && amount < self.min_balance_spec(asset) {
            Err(FungibleLedgerConsequence::BelowMinimum)
        } else {
            Ok(())
        }
    }

    /// Balances outside the two pairs `(asset, source)` and `(asset, dest)`
    /// are the same in `self` as in `other`.
    pub open spec fn balances_unchanged_but(
        self,
        other: Self,
        asset: AssetId,
        source: AccountId,
        dest: AccountId,
    ) -> bool {
        forall|a: AssetId, c: AccountId|
            !(a == asset && (c == source || c == dest)) ==> #[trigger] self.balance_of(a, c)
                == other.balance_of(a, c)
    }

    /// Every balance is the same in `self` as in `other`.
    pub open spec fn balances_unchanged(self, other: Self) -> bool {
        forall|a: AssetId, c: AccountId| #[trigger] self.balance_of(a, c) == other.balance_of(a, c)
    }

    pub fn new(config: MantaAssetConfig) -> (r: Self)
        requires
            config.wf(),
        ensures
            r.wf(),
            r.config == config,
            r.registrar.next_spec() == config.start_non_native_asset_id,
            forall|id: AssetId| !r.registrar.registered(id),
            forall|a: AssetId, c: AccountId| #[trigger] r.balance_of(a, c) == 0,
    {
        MantaFungibleLedger {
            config,
            registrar: MantaAssetRegistrar::new(config.start_non_native_asset_id),
            balances: BalanceStore::new(),
        }
    }

    /// Registers a new asset and returns its freshly allocated id.
    pub fn register(&mut self, metadata: AssetMetadata) -> (id: AssetId)
        requires
            old(self).wf(),
            old(self).registrar.next_spec() < AssetId::MAX,
        ensures
            final(self).wf(),
            id == old(self).registrar.next_spec(),
            id >= final(self).config.start_non_native_asset_id,
            final(self).config == old(self).config,
            final(self).registrar.next_spec() == old(self).registrar.next_spec() + 1,
            final(self).is_valid_spec(id),
            final(self).registrar.metadata_spec(id) == Some(metadata),
            forall|other: AssetId|
                other != id ==> #[trigger] final(self).registrar.metadata_spec(other) == old(
                    self,
                ).registrar.metadata_spec(other),
            final(self).balances_unchanged(*old(self)),
    {
        self.registrar.register(metadata)
    }

    /// Whether `asset` is the native id or a registered non-native id.
    pub fn is_valid(&self, asset: AssetId) -> (r: bool)
        ensures
            r == self.is_valid_spec(asset),
    {
        self.route(asset).is_some()
    }

    /// The frozen flag and minimum balance that the routed-to store
    /// demands of `asset`, which must be valid.
    fn asset_rules(&self, asset: AssetId) -> (r: (bool, Balance))
        requires
            self.wf(),
            self.is_valid_spec(asset),
        ensures
            r.0 == self.frozen_spec(asset),
            r.1 == self.min_balance_spec(asset),
    {
        match self.route(asset) {
            Some(AssetRoute::NativeCurrency) => (false, self.config.native_existential_deposit),
            Some(AssetRoute::RegisteredAsset(id)) => {
                match self.registrar.metadata_of(id) {
                    Some(m) => (m.is_frozen, m.min_balance),
                    None => {
                        // A registered-asset route answers only for
                        // registered ids.
                        proof {
                            assert(false);
                        }
                        (false, 0)
                    },
                }
            },
            None => {
                // The id was checked valid: some route answers.
                proof {
                    assert(false);
                }
                (false, 0)
            },
        }
    }

    /// Read-only check of whether a deposit of `amount` to `account` would
    /// succeed.
    pub fn can_deposit(&self, asset: AssetId, account: AccountId, amount: Balance) -> (r: Result<
        (),
        FungibleLedgerConsequence,
    >)
        requires
            self.wf(),
        ensures
            r == self.can_deposit_spec(asset, account, amount),
    {
        if !self.is_valid(asset) {
            return Err(FungibleLedgerConsequence::InvalidAssetId);
        }
        let (frozen, min_balance) = self.asset_rules(asset);
        if frozen {
            return Err(FungibleLedgerConsequence::Frozen);
        }
        if amount == 0 {
            return Ok(());
        }
        let bal = self.balances.get(asset, account);
        match bal.checked_add(amount) {
            None => Err(FungibleLedgerConsequence::Overflow),
            Some(_) => {
                if bal == 0 && amount < min_balance {
                    Err(FungibleLedgerConsequence::BelowMinimum)
                } else {
                    Ok(())
                }
            },
        }
    }

    /// Read-only check of whether a withdrawal of `amount` from `account`
    /// would succeed.
    pub fn can_withdraw(&self, asset: AssetId, account: AccountId, amount: Balance) -> (r: Result<
        (),
        FungibleLedgerConsequence,
    >)
        requires
            self.wf(),
        ensures
            r == self.can_withdraw_spec(asset, account, amount),
    {
        if !self.is_valid(asset) {
            return Err(FungibleLedgerConsequence::InvalidAssetId);
        }
        let (frozen, min_balance) = self.asset_rules(asset);
        if frozen {
            return Err(FungibleLedgerConsequence::Frozen);
        }
        if amount == 0 {
            return Ok(());
        }
        let bal = self.balances.get(asset, account);
        if bal < amount {
            Err(FungibleLedgerConsequence::NoFunds)
        } else if bal - amount > 0 && bal - amount < min_balance {
            Err(FungibleLedgerConsequence::WouldDie)
        } else {
            Ok(())
        }
    }

    /// Moves `amount` from `source` to `dest` atomically: on any failure no
    /// balance changes.
    pub fn transfer(
        &mut self,
        asset: AssetId,
        source: AccountId,
        dest: AccountId,
        amount: Balance,
    ) -> (r: Result<(), FungibleLedgerConsequence>)
        requires
            old(self).wf(),
        ensures
            final(self).wf(),
            r == old(self).transfer_spec(asset, source, dest, amount),
            final(self).config == old(self).config,
            final(self).registrar == old(self).registrar,
            final(self).balances_unchanged_but(*old(self), asset, source, dest),
            r is Err ==> final(self).balances_unchanged(*old(self)),
            r is Ok && source != dest ==> {
                &&& final(self).balance_of(asset, source) == old(self).balance_of(asset, source)
                    - amount
                &&& final(self).balance_of(asset, dest) == old(self).balance_of(asset, dest)
                    + amount
            },
            r is Ok && source == dest ==> final(self).balances_unchanged(*old(self)),
    {
        let taken_route = match self.route(asset) {
            None => {
                return Err(FungibleLedgerConsequence::InvalidAssetId);
            },
            Some(taken_route) => taken_route,
        };
        let (frozen, min_balance) = self.asset_rules(asset);
        if frozen {
            return Err(FungibleLedgerConsequence::Frozen);
        }
        let bal_source = self.balances.get(asset, source);
        if bal_source < amount {
            return Err(FungibleLedgerConsequence::NoFunds);
        }
        if source == dest {
            return Ok(());
        }
        let remaining = bal_source - amount;
        match taken_route {
            AssetRoute::NativeCurrency => {
                // The native currency keeps the source alive: it fails
                // rather than reap the account.
                if remaining < self.config.native_existential_deposit {
                    return Err(FungibleLedgerConsequence::WouldDie);
                }
            },
            AssetRoute::RegisteredAsset(_) => {
                // A registered asset's source may be swept to zero.
                if remaining > 0 && remaining < min_balance {
                    return Err(FungibleLedgerConsequence::WouldDie);
                }
            },
        }
        let bal_dest = self.balances.get(asset, dest);
        match bal_dest.checked_add(amount) {
            None => Err(FungibleLedgerConsequence::Overflow),
            Some(new_dest) => {
                if bal_dest == 0 && amount < min_balance {
                    Err(FungibleLedgerConsequence::BelowMinimum)
                } else {
                    self.balances.set(asset, source, remaining);
                    self.balances.set(asset, dest, new_dest);
                    Ok(())
                }
            },
        }
    }

    /// Credits `beneficiary` with freshly issued units of `asset`. For the
    /// native currency this is unconditional issuance; for a registered
    /// asset it is performed under the pool's administrative authority.
    /// Succeeds exactly when the corresponding deposit check does.
    pub fn mint(&mut self, asset: AssetId, beneficiary: AccountId, amount: Balance) -> (r: Result<
        (),
        FungibleLedgerConsequence,
    >)
        requires
            old(self).wf(),
        ensures
            final(self).wf(),
            r == old(self).can_deposit_spec(asset, beneficiary, amount),
            final(self).config == old(self).config,
            final(self).registrar == old(self).registrar,
            final(self).balances_unchanged_but(*old(self), asset, beneficiary, beneficiary),
            r is Err ==> final(self).balances_unchanged(*old(self)),
            r is Ok ==> final(self).balance_of(asset, beneficiary) == old(self).balance_of(
                asset,
                beneficiary,
            ) + amount,
    {
        match self.can_deposit(asset, beneficiary, amount) {
            Err(consequence) => Err(consequence),
            Ok(()) => {
                let bal = self.balances.get(asset, beneficiary);
                self.balances.set(asset, beneficiary, bal + amount);
                Ok(())
            },
        }
    }
}

} // verus!
