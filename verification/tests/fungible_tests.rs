use manta_pay::config::MantaAssetConfig;
use manta_pay::errors::FungibleLedgerConsequence;
use manta_pay::errors::RegistryError;
use manta_pay::fungible::MantaFungibleLedger;
use manta_pay::registry::AssetMetadata;

const NATIVE: u32 = 1;

fn metadata(min_balance: u128, is_frozen: bool) -> AssetMetadata {
    AssetMetadata {
        name: b"Dolphin".to_vec(),
        symbol: b"DOL".to_vec(),
        decimals: 18,
        min_balance,
        is_frozen,
        is_sufficient: true,
    }
}

fn ledger_with_ed(ed: u128) -> MantaFungibleLedger {
    MantaFungibleLedger::new(MantaAssetConfig::new(NATIVE, 8, ed))
}

#[test]
fn register_allocates_from_start() {
    let mut fl = ledger_with_ed(1);
    assert_eq!(fl.registrar.next_asset_id(), 8);
    let first = fl.register(metadata(1, false));
    let second = fl.register(metadata(2, false));
    assert_eq!(first, 8);
    assert_eq!(second, 9);
    assert_eq!(fl.registrar.next_asset_id(), 10);
    assert!(fl.registrar.is_registered(8));
    assert!(fl.registrar.is_registered(9));
    assert!(!fl.registrar.is_registered(10));
    let m = fl.registrar.metadata_of(9).unwrap();
    assert_eq!(m.min_balance, 2);
    assert_eq!(m.name, b"Dolphin".to_vec());
}

#[test]
fn update_asset_metadata_unknown_fails() {
    let mut fl = ledger_with_ed(1);
    let r = fl.registrar.update_asset_metadata(8, metadata(1, false));
    assert_eq!(r, Err(RegistryError::UnknownAssetId));
}

#[test]
fn update_asset_metadata_replaces() {
    let mut fl = ledger_with_ed(1);
    let id = fl.register(metadata(1, false));
    let r = fl.registrar.update_asset_metadata(id, metadata(7, true));
    assert_eq!(r, Ok(()));
    let m = fl.registrar.metadata_of(id).unwrap();
    assert_eq!(m.min_balance, 7);
    assert!(m.is_frozen);
}

#[test]
fn is_valid_cases() {
    let mut fl = ledger_with_ed(1);
    assert!(fl.is_valid(NATIVE));
    assert!(!fl.is_valid(0));
    assert!(!fl.is_valid(5));
    assert!(!fl.is_valid(8));
    let id = fl.register(metadata(1, false));
    assert!(fl.is_valid(id));
    assert!(!fl.is_valid(9));
}

#[test]
fn can_deposit_cases() {
    let mut fl = ledger_with_ed(1);
    assert_eq!(fl.can_deposit(3, 10, 5), Err(FungibleLedgerConsequence::InvalidAssetId));
    let id = fl.register(metadata(10, false));
    assert_eq!(fl.can_deposit(id, 10, 0), Ok(()));
    assert_eq!(fl.can_deposit(id, 10, 5), Err(FungibleLedgerConsequence::BelowMinimum));
    assert_eq!(fl.can_deposit(id, 10, 10), Ok(()));
    let frozen = fl.register(metadata(1, true));
    assert_eq!(fl.can_deposit(frozen, 10, 5), Err(FungibleLedgerConsequence::Frozen));
    assert_eq!(fl.mint(id, 10, u128::MAX), Ok(()));
    assert_eq!(fl.can_deposit(id, 10, 1), Err(FungibleLedgerConsequence::Overflow));
}

#[test]
fn can_withdraw_cases() {
    let mut fl = ledger_with_ed(5);
    assert_eq!(fl.can_withdraw(3, 10, 5), Err(FungibleLedgerConsequence::InvalidAssetId));
    assert_eq!(fl.mint(NATIVE, 10, 10), Ok(()));
    assert_eq!(fl.can_withdraw(NATIVE, 10, 0), Ok(()));
    assert_eq!(fl.can_withdraw(NATIVE, 10, 11), Err(FungibleLedgerConsequence::NoFunds));
    assert_eq!(fl.can_withdraw(NATIVE, 10, 7), Err(FungibleLedgerConsequence::WouldDie));
    assert_eq!(fl.can_withdraw(NATIVE, 10, 10), Ok(()));
    assert_eq!(fl.can_withdraw(NATIVE, 10, 5), Ok(()));
}

#[test]
fn transfer_native_keeps_source_alive() {
    let mut fl = ledger_with_ed(5);
    assert_eq!(fl.mint(NATIVE, 10, 10), Ok(()));
    // Reaping the source is refused even for a full sweep.
    assert_eq!(fl.transfer(NATIVE, 10, 20, 10), Err(FungibleLedgerConsequence::WouldDie));
    assert_eq!(fl.transfer(NATIVE, 10, 20, 7), Err(FungibleLedgerConsequence::WouldDie));
    // The destination must come out viable.
    assert_eq!(fl.transfer(NATIVE, 10, 20, 3), Err(FungibleLedgerConsequence::BelowMinimum));
    assert_eq!(fl.transfer(NATIVE, 10, 20, 5), Ok(()));
    assert_eq!(fl.balances.get(NATIVE, 10), 5);
    assert_eq!(fl.balances.get(NATIVE, 20), 5);
    assert_eq!(fl.transfer(NATIVE, 10, 20, 11), Err(FungibleLedgerConsequence::NoFunds));
}

#[test]
fn transfer_non_native_may_sweep_source() {
    let mut fl = ledger_with_ed(1);
    let id = fl.register(metadata(5, false));
    assert_eq!(fl.mint(id, 10, 10), Ok(()));
    assert_eq!(fl.transfer(id, 10, 20, 7), Err(FungibleLedgerConsequence::WouldDie));
    assert_eq!(fl.transfer(id, 10, 20, 10), Ok(()));
    assert_eq!(fl.balances.get(id, 10), 0);
    assert_eq!(fl.balances.get(id, 20), 10);
}

#[test]
fn transfer_frozen_asset_refused() {
    let mut fl = ledger_with_ed(1);
    let id = fl.register(metadata(1, false));
    assert_eq!(fl.mint(id, 10, 10), Ok(()));
    assert_eq!(fl.registrar.update_asset_metadata(id, metadata(1, true)), Ok(()));
    assert_eq!(fl.transfer(id, 10, 20, 5), Err(FungibleLedgerConsequence::Frozen));
    assert_eq!(fl.balances.get(id, 10), 10);
    assert_eq!(fl.can_withdraw(id, 10, 5), Err(FungibleLedgerConsequence::Frozen));
    assert_eq!(fl.can_deposit(id, 20, 5), Err(FungibleLedgerConsequence::Frozen));
}

#[test]
fn mint_credits_beneficiary() {
    let mut fl = ledger_with_ed(1);
    assert_eq!(fl.mint(7, 10, 5), Err(FungibleLedgerConsequence::InvalidAssetId));
    assert_eq!(fl.mint(NATIVE, 10, 5), Ok(()));
    assert_eq!(fl.mint(NATIVE, 10, 5), Ok(()));
    assert_eq!(fl.balances.get(NATIVE, 10), 10);
    let id = fl.register(metadata(1, false));
    assert_eq!(fl.mint(id, 20, 3), Ok(()));
    assert_eq!(fl.balances.get(id, 20), 3);
    assert_eq!(fl.balances.get(NATIVE, 20), 0);
}
