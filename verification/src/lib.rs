//! # dig-did: unsigned spends of Chia DIDs
//!
//! `dig-did` builds the coin spends of a Chia decentralized identifier's lifecycle and reports the
//! signatures that a caller must produce. It holds no key, signs nothing and reads no network: each
//! operation is a transform of its inputs whose result is an unsigned [`DidSpend`].
//!
//! ```text
//! build an unsigned DidSpend  ->  required_signatures(&spend.coin_spends, &constants)
//!   ->  the caller signs each reported message  ->  assembles the bundle  ->  broadcasts
//! ```
//!
//! Every puzzle and every spend byte comes from `chia-wallet-sdk`. The functions that call it are in
//! [`bytes`], [`clvm`], [`conditions`], [`driver`], [`sign`] and [`did_string`], each behind a contract
//! that says what is taken from the SDK; everything else is proved from those contracts.

pub mod amount;
pub mod bytes;
pub mod chain;
pub mod clvm;
pub mod conditions;
pub mod context;
pub mod create;
pub mod did_string;
pub mod driver;
pub mod error;
pub mod hydrate;
pub mod lineage;
pub mod melt;
pub mod resolve;
pub mod sign;
pub mod types;
pub mod update;
pub mod walk;

pub use chia_protocol::Bytes32;
pub use chia_puzzle_types::{LineageProof, Proof};
pub use chia_wallet_sdk::signer::AggSigConstants;

pub use amount::SingletonAmount;
pub use chain::{ChainSource, SingletonLineage, MAX_LINEAGE_DEPTH};
pub use clvm::Metadata;
pub use conditions::Conditions;
pub use context::SpendContext;
pub use create::{create_did, create_eve_did_only, create_simple_did};
pub use did_string::{
    did_string_from_launcher_id, launcher_id_from_did_string, Address, DID_CHIA_PREFIX,
};
pub use error::{DidError, DidResult};
pub use hydrate::{did_info_from_puzzle, hydrate_did_from_parent_spend, parse_did_coin_spend};
pub use lineage::{prove_lineage, AncestryProof, LineageModel};
pub use melt::melt;
pub use resolve::{
    resolve_xch_address, resolve_xch_address_from_did_string, walk_did_lineage_to_tip, DidTip,
};
pub use sign::{required_signatures, RequiredSignature};
pub use types::{Coin, CoinSpend, Did, DidInfo, DidSpend, Owner, Spend};
pub use update::spend_did_with_conditions;
