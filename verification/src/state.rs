//! The records of the protocol: what a leaf stands for, and what is kept for
//! each collection.

use vstd::prelude::*;
use crate::keys::Pubkey;

verus! {

/// The kind of token that a record describes.
#[derive(Clone, Copy, Debug, PartialEq, Eq, Structural)]
pub enum TokenStandard {
    NonFungible,
    FungibleAsset,
    Fungible,
    NonFungibleEdition,
}

/// The token program that a record was made for.
#[derive(Clone, Copy, Debug, PartialEq, Eq, Structural)]
pub enum TokenProgramVersion {
    Original,
    Token2022,
}

/// The collection that a record belongs to.
#[derive(Clone, Copy, Debug, PartialEq, Eq)]
pub struct Collection {
    pub verified: bool,
    pub key: Pubkey,
}

/// How a record may be used up.
#[derive(Clone, Copy, Debug, PartialEq, Eq, Structural)]
pub enum UseMethod {
    Burn,
    Multiple,
    Single,
}

/// The uses that a record has left.
#[derive(Clone, Copy, Debug, PartialEq, Eq)]
pub struct Uses {
    pub use_method: UseMethod,
    pub remaining: u64,
    pub total: u64,
}

/// One creator of a record, with its share in percent.
#[derive(Clone, Copy, Debug, PartialEq, Eq)]
pub struct Creator {
    pub address: Pubkey,
    pub verified: bool,
    pub share: u8,
}

/// The record that a leaf stands for. The amount of the balance is held
/// nowhere but in the text of `uri`.
#[derive(Clone, Debug, PartialEq, Eq)]
pub struct CnftMetadata {
    pub name: String,
    pub symbol: String,
    pub uri: String,
    pub seller_fee_basis_points: u16,
    pub primary_sale_happened: bool,
    pub is_mutable: bool,
    pub edition_nonce: Option<u8>,
    pub token_standard: Option<TokenStandard>,
    pub collection: Option<Collection>,
    pub uses: Option<Uses>,
    pub token_program_version: TokenProgramVersion,
    pub creators: Vec<Creator>,
}

/// A record as a mathematical value: texts as sequences of characters, the
/// creators as a sequence.
pub struct CnftMetadataView {
    pub name: Seq<char>,
    pub symbol: Seq<char>,
    pub uri: Seq<char>,
    pub seller_fee_basis_points: u16,
    pub primary_sale_happened: bool,
    pub is_mutable: bool,
    pub edition_nonce: Option<u8>,
    pub token_standard: Option<TokenStandard>,
    pub collection: Option<Collection>,
    pub uses: Option<Uses>,
    pub token_program_version: TokenProgramVersion,
    pub creators: Seq<Creator>,
}

impl View for CnftMetadata {
    type V = CnftMetadataView;

    open spec fn view(&self) -> CnftMetadataView {
        CnftMetadataView {
            name: self.name@,
            symbol: self.symbol@,
            uri: self.uri@,
            seller_fee_basis_points: self.seller_fee_basis_points,
            primary_sale_happened: self.primary_sale_happened,
            is_mutable: self.is_mutable,
            edition_nonce: self.edition_nonce,
            token_standard: self.token_standard,
            collection: self.collection,
            uses: self.uses,
            token_program_version: self.token_program_version,
            creators: self.creators@,
        }
    }
}

/// What is kept for each collection: whether it was created here, how much
/// was minted into it, and who may mint.
#[derive(Clone, Copy, Debug, PartialEq, Eq)]
pub struct TinySplAuthority {
    pub is_verified_tiny_spl_mint: bool,
    pub current_supply: u64,
    pub mint_authority: Option<Pubkey>,
}

/// The three texts of a new leaf: display name, symbol and locator.
#[derive(Clone, Debug, PartialEq, Eq)]
pub struct MintTinySplArgs {
    pub name: String,
    pub symbol: String,
    pub uri: String,
}

} // verus!
