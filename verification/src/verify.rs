//! The check of a leaf before it is spent: who signed, which collection the
//! record names, and the request that asks the tree service whether the leaf
//! is in the tree.

use vstd::prelude::*;
use crate::error::TinySplError;
use crate::identity::{
    asset_id_of, creator_hash_of, data_hash_of, derive_identity, leaf_hash_of, LeafIdentity,
};
use crate::keys::{same_key, Pubkey};
use crate::layout::serializable;
use crate::state::{CnftMetadata, CnftMetadataView};

verus! {

/// An account as an operation sees it: its address, and whether it signed.
#[derive(Clone, Copy, Debug, PartialEq, Eq)]
pub struct Party {
    pub key: Pubkey,
    pub is_signer: bool,
}

/// The request that asks the tree service whether `leaf` stands at `index` of
/// the tree under `root`. The proof path goes with it.
#[derive(Clone, Copy, Debug, PartialEq, Eq)]
pub struct VerifyLeaf {
    pub merkle_tree: Pubkey,
    pub root: [u8; 32],
    pub leaf: [u8; 32],
    pub index: u32,
}

/// A leaf that passed the checks made here, with the request that remains to
/// be answered by the tree service.
#[derive(Clone, Copy, Debug, PartialEq, Eq)]
pub struct LeafCheck {
    pub asset_id: Pubkey,
    pub data_hash: [u8; 32],
    pub creator_hash: [u8; 32],
    pub request: VerifyLeaf,
}

/// Why a leaf is refused before the tree service is asked, if it is.
pub open spec fn leaf_refusal(
    metadata: CnftMetadataView,
    owner: Party,
    delegate: Party,
    collection_mint: Pubkey,
) -> Option<TinySplError> {
    if !(owner.is_signer || delegate.is_signer) {
        Some(TinySplError::LeafAuthorityMustSign)
    } else if !(metadata.collection matches Some(c) && c.key == collection_mint) {
        Some(TinySplError::CollectionMismatch)
    } else if !serializable(metadata) {
        Some(TinySplError::MetadataTooLong)
    } else {
        None
    }
}

impl LeafCheck {
    /// The hashes are those of the leaf that holds `metadata` for `owner` and
    /// `delegate` at `nonce` of `merkle_tree`, and the request asks for that
    /// leaf at `index` under `root`.
    pub open spec fn describes(
        self,
        root: [u8; 32],
        metadata: CnftMetadataView,
        nonce: u64,
        index: u32,
        merkle_tree: Pubkey,
        owner: Pubkey,
        delegate: Pubkey,
    ) -> bool {
        &&& self.asset_id@ == asset_id_of(merkle_tree@, nonce)
        &&& self.data_hash@ == data_hash_of(metadata)
        &&& self.creator_hash@ == creator_hash_of(metadata.creators)
        &&& self.request.merkle_tree == merkle_tree
        &&& self.request.root == root
        &&& self.request.index == index
        &&& self.request.leaf@ == leaf_hash_of(merkle_tree@, nonce, owner@, delegate@, metadata)
    }
}

/// Checks a leaf and prepares the question to the tree service.
///
/// The owner or the delegate must have signed (`LeafAuthorityMustSign`), the
/// record must name `collection_mint` as its collection (`CollectionMismatch`,
/// also where it names none), and the record must have bytes
/// (`MetadataTooLong`); the first of these that fails gives the error. On
/// success the leaf's hashes come back with the request to send. Whether the
/// leaf is in the tree is for the tree service to say.
pub fn verify_cnft_metadata(
    root: [u8; 32],
    metadata: &CnftMetadata,
    nonce: u64,
    index: u32,
    merkle_tree: &Pubkey,
    owner: &Party,
    delegate: &Party,
    collection_mint: &Pubkey,
) -> (result: Result<LeafCheck, TinySplError>)
    ensures
        match result {
            Ok(check) => leaf_refusal(metadata@, *owner, *delegate, *collection_mint) is None
                && check.describes(
                root,
                metadata@,
                nonce,
                index,
                *merkle_tree,
                owner.key,
                delegate.key,
            ),
            Err(e) => leaf_refusal(metadata@, *owner, *delegate, *collection_mint) == Some(e),
        },
{
    if !(owner.is_signer || delegate.is_signer) {
        return Err(TinySplError::LeafAuthorityMustSign);
    }
    let names_collection = match &metadata.collection {
        Some(c) => same_key(&c.key, collection_mint),
        None => false,
    };
    if !names_collection {
        return Err(TinySplError::CollectionMismatch);
    }
    let identity = derive_identity(merkle_tree, nonce, &owner.key, &delegate.key, metadata)?;
    Ok(
        LeafCheck {
            asset_id: identity.asset_id,
            data_hash: identity.data_hash,
            creator_hash: identity.creator_hash,
            request: VerifyLeaf {
                merkle_tree: *merkle_tree,
                root,
                leaf: identity.leaf_hash,
                index,
            },
        },
    )
}

} // verus!
