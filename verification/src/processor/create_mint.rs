//! A collection is opened for minting.

use vstd::prelude::*;
use crate::error::TinySplError;
use crate::keys::Pubkey;
use crate::state::TinySplAuthority;

verus! {

/// What the creation of a collection reads from its accounts: whether the
/// three accounts to be filled are still empty, and who will mint.
#[derive(Clone, Copy, Debug, PartialEq, Eq)]
pub struct CreateMint {
    pub mint_is_empty: bool,
    pub metadata_is_empty: bool,
    pub master_edition_is_empty: bool,
    pub mint_authority: Pubkey,
}

/// Why a collection is not created, if it is not.
pub open spec fn create_mint_refusal(ctx: CreateMint) -> Option<TinySplError> {
    if !ctx.mint_is_empty {
        Some(TinySplError::MintAccountNotEmpty)
    } else if !ctx.metadata_is_empty {
        Some(TinySplError::MetadataAccountNotEmpty)
    } else if !ctx.master_edition_is_empty {
        Some(TinySplError::MasterEditionAccountNotEmpty)
    } else {
        None
    }
}

/// The record kept for a collection that was just created with
/// `mint_authority` as its minter.
pub open spec fn new_authority(mint_authority: Pubkey) -> TinySplAuthority {
    TinySplAuthority {
        is_verified_tiny_spl_mint: true,
        current_supply: 0,
        mint_authority: Some(mint_authority),
    }
}

/// Checks that a collection can be created and gives the record to keep for
/// it once the collection exists.
///
/// The mint, metadata and master edition accounts must be empty; they are
/// looked at in this order and the first that holds data gives the error.
pub fn create_mint(ctx: &CreateMint) -> (result: Result<TinySplAuthority, TinySplError>)
    ensures
        match result {
            Ok(authority) => create_mint_refusal(*ctx) is None && authority == new_authority(
                ctx.mint_authority,
            ),
            Err(e) => create_mint_refusal(*ctx) == Some(e),
        },
{
    if !ctx.mint_is_empty {
        return Err(TinySplError::MintAccountNotEmpty);
    }
    if !ctx.metadata_is_empty {
        return Err(TinySplError::MetadataAccountNotEmpty);
    }
    if !ctx.master_edition_is_empty {
        return Err(TinySplError::MasterEditionAccountNotEmpty);
    }
    Ok(
        TinySplAuthority {
            is_verified_tiny_spl_mint: true,
            current_supply: 0,
            mint_authority: Some(ctx.mint_authority),
        },
    )
}

} // verus!
