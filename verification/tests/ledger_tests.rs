use manta_pay::config::MantaAssetConfig;
use manta_pay::errors::TransferError;
use manta_pay::ledger::Event;
use manta_pay::ledger::Ledger;
use manta_pay::post::Asset;
use manta_pay::post::TransferPost;
use manta_pay::registry::AssetMetadata;
use manta_pay::zkp::binding_proof;
use manta_pay::zkp::BindingVerifier;

const NATIVE: u32 = 1;
const ALICE: u64 = 5;
const CUSTODY: u64 = 999;
const ED: u128 = 1;

fn new_test_ext() -> Ledger<BindingVerifier> {
    Ledger::new(MantaAssetConfig::new(NATIVE, 2, ED), CUSTODY, BindingVerifier)
}

fn default_metadata() -> AssetMetadata {
    AssetMetadata {
        name: b"Dolphin".to_vec(),
        symbol: b"DOL".to_vec(),
        decimals: 18,
        min_balance: 1,
        is_frozen: false,
        is_sufficient: true,
    }
}

/// Registers an asset and funds `owner` with `value` plus the existential
/// deposit, and the custody account with the existential deposit.
fn init_asset(ledger: &mut Ledger<BindingVerifier>, owner: u64, value: u128) -> u32 {
    let id = ledger.fungible.register(default_metadata());
    ledger.fungible.mint(id, owner, value + ED).unwrap();
    ledger.fungible.mint(id, CUSTODY, ED).unwrap();
    id
}

/// Builds a post whose proof the binding verifier accepts.
fn proven_post(
    asset_id: Option<u32>,
    sources: Vec<u128>,
    sinks: Vec<u128>,
    spent_nullifiers: Vec<u128>,
    created_commitments: Vec<u128>,
) -> TransferPost {
    let proof = binding_proof(asset_id, &sources, &sinks, &spent_nullifiers, &created_commitments);
    TransferPost { asset_id, sources, sinks, spent_nullifiers, created_commitments, proof }
}

fn assert_last_event(ledger: &Ledger<BindingVerifier>, event: Event) {
    assert_eq!(ledger.last_event(), Some(event));
}

#[test]
fn mint_moves_public_value_into_custody() {
    let mut ledger = new_test_ext();
    let id = init_asset(&mut ledger, ALICE, 1_000_000);
    assert_eq!(id, 2);
    assert_eq!(ledger.balance(id, ALICE), 1_000_001);
    let post = proven_post(Some(id), vec![1_000_001], vec![], vec![], vec![11]);
    assert_eq!(ledger.mint(ALICE, &post), Ok(()));
    assert_eq!(ledger.balance(id, ALICE), 0);
    assert_eq!(ledger.balance(id, CUSTODY), 1_000_002);
    assert_eq!(ledger.pool.commitment_count(), 1);
    assert_last_event(
        &ledger,
        Event::Mint { asset: Asset::new(id, 1_000_001), source: ALICE },
    );
}

#[test]
fn mint_rejects_insufficient_balance() {
    let mut ledger = new_test_ext();
    let id = init_asset(&mut ledger, ALICE, 100);
    let post = proven_post(Some(id), vec![102], vec![], vec![], vec![11]);
    assert_eq!(ledger.mint(ALICE, &post), Err(TransferError::InsufficientPublicBalance));
    assert_eq!(ledger.balance(id, ALICE), 101);
    assert_eq!(ledger.balance(id, CUSTODY), 1);
    assert_eq!(ledger.pool.commitment_count(), 0);
    assert_eq!(ledger.events.len(), 0);
}

#[test]
fn mint_rejects_unknown_asset() {
    let mut ledger = new_test_ext();
    let post = proven_post(Some(7), vec![10], vec![], vec![], vec![11]);
    assert_eq!(ledger.mint(ALICE, &post), Err(TransferError::InvalidAssetId));
}

#[test]
fn mint_rejects_malformed_shapes() {
    let mut ledger = new_test_ext();
    let id = init_asset(&mut ledger, ALICE, 100);
    // No public source.
    let no_sources = proven_post(Some(id), vec![], vec![], vec![], vec![11]);
    assert_eq!(ledger.mint(ALICE, &no_sources), Err(TransferError::MalformedPost));
    // No asset id.
    let no_asset = proven_post(None, vec![10], vec![], vec![], vec![11]);
    assert_eq!(ledger.mint(ALICE, &no_asset), Err(TransferError::MalformedPost));
    // A mint must not spend notes.
    let spends = proven_post(Some(id), vec![10], vec![], vec![77], vec![11]);
    assert_eq!(ledger.mint(ALICE, &spends), Err(TransferError::MalformedPost));
    // A mint must create at least one note.
    let creates_none = proven_post(Some(id), vec![10], vec![], vec![], vec![]);
    assert_eq!(ledger.mint(ALICE, &creates_none), Err(TransferError::MalformedPost));
    // The public amounts must sum without overflow.
    let overflowing = proven_post(Some(id), vec![u128::MAX, 1], vec![], vec![], vec![11]);
    assert_eq!(ledger.mint(ALICE, &overflowing), Err(TransferError::MalformedPost));
    assert_eq!(ledger.balance(id, ALICE), 101);
}

#[test]
fn mint_rejects_wrong_proof() {
    let mut ledger = new_test_ext();
    let id = init_asset(&mut ledger, ALICE, 100);
    let mut post = proven_post(Some(id), vec![50], vec![], vec![], vec![11]);
    post.proof = post.proof.wrapping_add(1);
    assert_eq!(ledger.mint(ALICE, &post), Err(TransferError::InvalidProof));
    // A proof over different public terms is not transferable.
    let other = proven_post(Some(id), vec![51], vec![], vec![], vec![11]);
    post.proof = other.proof;
    assert_eq!(ledger.mint(ALICE, &post), Err(TransferError::InvalidProof));
    assert_eq!(ledger.balance(id, ALICE), 101);
}

#[test]
fn mint_surfaces_opaque_ledger_failure() {
    let mut ledger = new_test_ext();
    let id = init_asset(&mut ledger, ALICE, 100);
    // The custody account's balance can no longer grow.
    ledger.fungible.mint(id, CUSTODY, u128::MAX - 1).unwrap();
    let post = proven_post(Some(id), vec![50], vec![], vec![], vec![11]);
    assert_eq!(ledger.mint(ALICE, &post), Err(TransferError::PublicLedgerInternalError));
    assert_eq!(ledger.balance(id, ALICE), 101);
}

#[test]
fn private_transfer_spends_and_creates_without_public_change() {
    let mut ledger = new_test_ext();
    let id = init_asset(&mut ledger, ALICE, 1_000_000);
    let first = proven_post(Some(id), vec![400_000], vec![], vec![], vec![11]);
    let second = proven_post(Some(id), vec![400_000], vec![], vec![], vec![12]);
    assert_eq!(ledger.mint(ALICE, &first), Ok(()));
    assert_eq!(ledger.mint(ALICE, &second), Ok(()));
    let alice_before = ledger.balance(id, ALICE);
    let custody_before = ledger.balance(id, CUSTODY);

    let post = proven_post(None, vec![], vec![], vec![1001, 1002], vec![13, 14]);
    assert_eq!(ledger.private_transfer(ALICE, &post), Ok(()));
    assert_eq!(ledger.balance(id, ALICE), alice_before);
    assert_eq!(ledger.balance(id, CUSTODY), custody_before);
    assert_eq!(ledger.pool.commitment_count(), 4);
    assert!(ledger.pool.contains_nullifier(1001));
    assert!(ledger.pool.contains_nullifier(1002));
    assert_last_event(&ledger, Event::PrivateTransfer { origin: ALICE });

    // Resubmitting the identical post must fail and change nothing.
    let events_before = ledger.events.len();
    assert_eq!(ledger.private_transfer(ALICE, &post), Err(TransferError::NullifierAlreadySpent));
    assert_eq!(ledger.pool.commitment_count(), 4);
    assert_eq!(ledger.events.len(), events_before);
    assert_eq!(ledger.balance(id, ALICE), alice_before);
}

#[test]
fn private_transfer_rejects_duplicate_within_post() {
    let mut ledger = new_test_ext();
    let post = proven_post(None, vec![], vec![], vec![7, 7], vec![11]);
    assert_eq!(ledger.private_transfer(ALICE, &post), Err(TransferError::DuplicateSpendWithinPost));
    assert!(!ledger.pool.contains_nullifier(7));
}

#[test]
fn private_transfer_rejects_public_terms() {
    let mut ledger = new_test_ext();
    let id = init_asset(&mut ledger, ALICE, 100);
    let with_asset = proven_post(Some(id), vec![], vec![], vec![7], vec![11]);
    assert_eq!(ledger.private_transfer(ALICE, &with_asset), Err(TransferError::MalformedPost));
    let with_sources = proven_post(None, vec![10], vec![], vec![7], vec![11]);
    assert_eq!(ledger.private_transfer(ALICE, &with_sources), Err(TransferError::MalformedPost));
}

#[test]
fn reclaim_credits_the_sink_from_custody() {
    let mut ledger = new_test_ext();
    let id = init_asset(&mut ledger, ALICE, 1_000_000);
    let deposit = proven_post(Some(id), vec![500_000], vec![], vec![], vec![11]);
    assert_eq!(ledger.mint(ALICE, &deposit), Ok(()));
    assert_eq!(ledger.balance(id, ALICE), 500_001);
    assert_eq!(ledger.balance(id, CUSTODY), 500_001);

    let post = proven_post(Some(id), vec![], vec![10_000], vec![2001], vec![]);
    assert_eq!(ledger.reclaim(ALICE, &post), Ok(()));
    assert_eq!(ledger.balance(id, ALICE), 510_001);
    assert_eq!(ledger.balance(id, CUSTODY), 490_001);
    assert!(ledger.pool.contains_nullifier(2001));
    assert_eq!(ledger.pool.commitment_count(), 1);
    assert_last_event(
        &ledger,
        Event::Reclaim { asset: Asset::new(id, 10_000), sink: ALICE },
    );

    // Resubmission spends nothing twice and credits nobody twice.
    assert_eq!(ledger.reclaim(ALICE, &post), Err(TransferError::NullifierAlreadySpent));
    assert_eq!(ledger.balance(id, ALICE), 510_001);
    assert_eq!(ledger.balance(id, CUSTODY), 490_001);
}

#[test]
fn reclaim_rejects_malformed_shapes() {
    let mut ledger = new_test_ext();
    let id = init_asset(&mut ledger, ALICE, 100);
    // A reclaim must not create notes.
    let creates = proven_post(Some(id), vec![], vec![10], vec![7], vec![11]);
    assert_eq!(ledger.reclaim(ALICE, &creates), Err(TransferError::MalformedPost));
    // A reclaim must spend at least one note.
    let spends_none = proven_post(Some(id), vec![], vec![10], vec![], vec![]);
    assert_eq!(ledger.reclaim(ALICE, &spends_none), Err(TransferError::MalformedPost));
    // A reclaim must name its asset.
    let no_asset = proven_post(None, vec![], vec![10], vec![7], vec![]);
    assert_eq!(ledger.reclaim(ALICE, &no_asset), Err(TransferError::MalformedPost));
}

#[test]
fn public_value_is_conserved_across_mint_and_reclaim() {
    let mut ledger = new_test_ext();
    let id = init_asset(&mut ledger, ALICE, 1_000_000);
    let circulating = ledger.balance(id, ALICE) + ledger.balance(id, CUSTODY);
    let deposit = proven_post(Some(id), vec![250_000], vec![], vec![], vec![11]);
    assert_eq!(ledger.mint(ALICE, &deposit), Ok(()));
    assert_eq!(ledger.balance(id, ALICE) + ledger.balance(id, CUSTODY), circulating);
    let withdraw = proven_post(Some(id), vec![], vec![40_000], vec![3001], vec![]);
    assert_eq!(ledger.reclaim(ALICE, &withdraw), Ok(()));
    assert_eq!(ledger.balance(id, ALICE) + ledger.balance(id, CUSTODY), circulating);
}

#[test]
fn custody_balance_mirrors_outstanding_shielded_value() {
    let mut ledger = new_test_ext();
    let id = init_asset(&mut ledger, ALICE, 1_000_000);
    let mut outstanding: u128 = 0;
    let deposit = proven_post(Some(id), vec![300_000], vec![], vec![], vec![11]);
    assert_eq!(ledger.mint(ALICE, &deposit), Ok(()));
    outstanding += 300_000;
    assert_eq!(ledger.balance(id, CUSTODY), outstanding + ED);
    let withdraw = proven_post(Some(id), vec![], vec![120_000], vec![4001], vec![]);
    assert_eq!(ledger.reclaim(ALICE, &withdraw), Ok(()));
    outstanding -= 120_000;
    assert_eq!(ledger.balance(id, CUSTODY), outstanding + ED);
}

#[test]
fn native_asset_posts_follow_the_native_rules() {
    let mut ledger = new_test_ext();
    ledger.fungible.mint(NATIVE, ALICE, 1_000).unwrap();
    ledger.fungible.mint(NATIVE, CUSTODY, ED).unwrap();
    let post = proven_post(Some(NATIVE), vec![400], vec![], vec![], vec![21]);
    assert_eq!(ledger.mint(ALICE, &post), Ok(()));
    assert_eq!(ledger.balance(NATIVE, ALICE), 600);
    assert_eq!(ledger.balance(NATIVE, CUSTODY), 401);
    // A full native sweep would reap the submitter: refused.
    let sweep = proven_post(Some(NATIVE), vec![600], vec![], vec![], vec![22]);
    assert_eq!(ledger.mint(ALICE, &sweep), Err(TransferError::InsufficientPublicBalance));
}
