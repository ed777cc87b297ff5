//! A confidential multi-asset transfer ledger: a shielded value-transfer
//! core layered on top of a public fungible-asset accounting model.
//!
//! The library keeps, per ledger instance, a public balance store routed
//! through [`fungible::MantaFungibleLedger`], an asset registry
//! ([`registry::MantaAssetRegistrar`]), and a shielded pool: an
//! append-only commitment accumulator together with the set of spent
//! nullifiers.
//! Three entry points — `mint`, `private_transfer` and `reclaim` — move
//! value across the public/shielded boundary as single all-or-nothing
//! transitions, gated by a proof-verification contract.

pub mod balances;
pub mod config;
pub mod digest;
pub mod errors;
pub mod fungible;
pub mod ledger;
pub mod pool;
pub mod post;
pub mod registry;
pub mod validator;
pub mod zkp;
