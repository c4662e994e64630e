//! A new balance enters a collection.

use vstd::prelude::*;
use crate::encoder::{get_tiny_spl_metadata, tiny_spl_metadata};
use crate::error::TinySplError;
use crate::keys::{same_key, Pubkey};
use crate::processor::requests::MintLeaf;
use crate::state::TinySplAuthority;
use crate::verify::Party;

verus! {

/// The accounts of a mint, with the symbol read from the collection's
/// metadata.
#[derive(Clone, Debug, PartialEq, Eq)]
pub struct MintTo {
    pub mint_authority: Party,
    pub new_leaf_owner: Pubkey,
    pub merkle_tree: Pubkey,
    pub collection_mint: Pubkey,
    pub collection_symbol: String,
    pub tiny_spl_authority: Pubkey,
}

impl TinySplAuthority {
    /// The collection was created here, and `minter` signed and is its mint
    /// authority.
    pub open spec fn admits(self, minter: Party) -> bool {
        self.is_verified_tiny_spl_mint && minter.is_signer && self.mint_authority == Some(
            minter.key,
        )
    }

    /// Whether the collection was created here and `minter` signed and is its
    /// mint authority.
    pub fn may_mint(&self, minter: &Party) -> (allowed: bool)
        ensures
            allowed == self.admits(*minter),
    {
        if !self.is_verified_tiny_spl_mint || !minter.is_signer {
            return false;
        }
        match &self.mint_authority {
            Some(key) => same_key(key, &minter.key),
            None => false,
        }
    }
}

/// Why a mint is refused, if it is.
pub open spec fn mint_refusal(authority: TinySplAuthority, minter: Party, amount: u64) -> Option<
    TinySplError,
> {
    if !authority.admits(minter) {
        Some(TinySplError::InvalidMintAuthority)
    } else if authority.current_supply + amount > u64::MAX {
        Some(TinySplError::ArithmeticOverflow)
    } else {
        None
    }
}

/// Plans the mint of `amount` and counts it in the supply of the collection.
///
/// The collection must have been created here and the signer must be its mint
/// authority (`InvalidMintAuthority`), and the supply must stay within 64 bits
/// (`ArithmeticOverflow`). On success the supply has grown by `amount` and the
/// request for the new leaf comes back; on failure the record of the collection
/// is as it was. The supply is the only field that ever changes.
pub fn mint_to(ctx: &MintTo, authority: &mut TinySplAuthority, amount: u64) -> (result: Result<
    MintLeaf,
    TinySplError,
>)
    ensures
        final(authority).is_verified_tiny_spl_mint == old(authority).is_verified_tiny_spl_mint,
        final(authority).mint_authority == old(authority).mint_authority,
        match result {
            Ok(mint) => mint_refusal(*old(authority), ctx.mint_authority, amount) is None
                && final(authority).current_supply == old(authority).current_supply + amount
                && mint.mints(
                ctx.merkle_tree,
                ctx.new_leaf_owner,
                tiny_spl_metadata(
                    ctx.collection_symbol@,
                    amount,
                    ctx.collection_mint,
                    ctx.tiny_spl_authority,
                ),
            ),
            Err(e) => mint_refusal(*old(authority), ctx.mint_authority, amount) == Some(e)
                && final(authority).current_supply == old(authority).current_supply,
        },
{
    if !authority.may_mint(&ctx.mint_authority) {
        return Err(TinySplError::InvalidMintAuthority);
    }
    let supply = match authority.current_supply.checked_add(amount) {
        Some(supply) => supply,
        None => {
            return Err(TinySplError::ArithmeticOverflow);
        },
    };
    authority.current_supply = supply;
    Ok(
        MintLeaf {
            merkle_tree: ctx.merkle_tree,
            leaf_owner: ctx.new_leaf_owner,
            leaf_delegate: ctx.new_leaf_owner,
            metadata: get_tiny_spl_metadata(
                ctx.collection_symbol.clone(),
                amount,
                ctx.collection_mint,
                ctx.tiny_spl_authority,
            ),
        },
    )
}

} // verus!
