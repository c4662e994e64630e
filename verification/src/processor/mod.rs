//! The operations: what each one checks, and the requests it sends to the
//! tree service once every check has passed.

pub mod combine;
pub mod create_mint;
pub mod mint_to;
pub mod requests;
pub mod split;

pub use self::combine::{combine, CombinePlan};
pub use self::create_mint::{create_mint, CreateMint};
pub use self::mint_to::{mint_to, MintTo};
pub use self::requests::{
    BurnLeaf, Combine, LeafAccounts, LeafRemoval, MintLeaf, Split, TreeRequest,
};
pub use self::split::{split, SplitPlan};
