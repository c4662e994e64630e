//! Divisible token balances kept as leaves of a compressed Merkle tree.
//!
//! A balance is a metadata record whose locator text carries the amount. The
//! modules build such records, derive the hashes that identify a leaf, check
//! that a split or a combination keeps the total unchanged, and lay out the
//! requests that an operation sends to the tree service.

pub mod encoder;
pub mod error;
pub mod amounts;
pub mod identity;
pub mod keys;
pub mod layout;
pub mod layout_laws;
pub mod locator;
pub mod logging;
pub mod processor;
pub mod state;
pub mod verify;

pub use crate::amounts::{verify_combine, verify_token_splits};
pub use crate::encoder::{get_mint_tiny_spl_args, get_tiny_spl_metadata};
pub use crate::error::TinySplError;
pub use crate::identity::{derive_identity, LeafIdentity};
pub use crate::keys::{same_key, Pubkey};
pub use crate::locator::{get_token_amount, TokenAmountError};
pub use crate::processor::{combine, create_mint, mint_to, split};
pub use crate::state::{
    CnftMetadata, Collection, Creator, MintTinySplArgs, TinySplAuthority, TokenProgramVersion,
    TokenStandard, UseMethod, Uses,
};
pub use crate::verify::verify_cnft_metadata;
