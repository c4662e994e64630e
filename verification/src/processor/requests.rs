//! The requests that an operation sends to the tree service, and the accounts
//! that an operation on leaves runs with.

use vstd::prelude::*;
use crate::encoder::{get_tiny_spl_metadata, tiny_spl_metadata};
use crate::error::TinySplError;
use crate::identity::{asset_id_of, creator_hash_of, data_hash_of, leaf_hash_of};
use crate::keys::{same_key, Pubkey};
use crate::state::{CnftMetadata, CnftMetadataView};
use crate::verify::{leaf_refusal, verify_cnft_metadata, Party, VerifyLeaf};

verus! {

/// The request that removes a leaf from the tree. The proof path goes with it.
#[derive(Clone, Copy, Debug, PartialEq, Eq)]
pub struct BurnLeaf {
    pub merkle_tree: Pubkey,
    pub leaf_owner: Pubkey,
    pub leaf_delegate: Pubkey,
    pub root: [u8; 32],
    pub data_hash: [u8; 32],
    pub creator_hash: [u8; 32],
    pub nonce: u64,
    pub index: u32,
}

/// The request that appends a leaf to the tree.
#[derive(Clone, Debug, PartialEq, Eq)]
pub struct MintLeaf {
    pub merkle_tree: Pubkey,
    pub leaf_owner: Pubkey,
    pub leaf_delegate: Pubkey,
    pub metadata: CnftMetadata,
}

impl MintLeaf {
    /// The request appends `metadata` to `merkle_tree`, with `new_leaf_owner`
    /// as owner and as delegate.
    pub open spec fn mints(
        self,
        merkle_tree: Pubkey,
        new_leaf_owner: Pubkey,
        metadata: CnftMetadataView,
    ) -> bool {
        &&& self.merkle_tree == merkle_tree
        &&& self.leaf_owner == new_leaf_owner
        &&& self.leaf_delegate == new_leaf_owner
        &&& self.metadata@ == metadata
    }
}

/// The two requests that spend one leaf: the question whether it is in the
/// tree, and its removal. Both go with the part of the proof path from
/// `proof_start` up to, not including, `proof_end`.
#[derive(Clone, Copy, Debug, PartialEq, Eq)]
pub struct LeafRemoval {
    pub verify: VerifyLeaf,
    pub burn: BurnLeaf,
    pub proof_start: usize,
    pub proof_end: usize,
}

/// One request to the tree service.
#[derive(Clone, Debug, PartialEq, Eq)]
pub enum TreeRequest {
    /// Ask whether a leaf is in the tree.
    Verify { verify: VerifyLeaf, proof_start: usize, proof_end: usize },
    /// Remove a leaf.
    Burn { burn: BurnLeaf, proof_start: usize, proof_end: usize },
    /// Append a leaf.
    Mint { mint: MintLeaf },
}

impl LeafRemoval {
    /// The question whether the leaf is in the tree, as a request.
    pub open spec fn verify_request(self) -> TreeRequest {
        TreeRequest::Verify {
            verify: self.verify,
            proof_start: self.proof_start,
            proof_end: self.proof_end,
        }
    }

    /// The removal of the leaf, as a request.
    pub open spec fn burn_request(self) -> TreeRequest {
        TreeRequest::Burn {
            burn: self.burn,
            proof_start: self.proof_start,
            proof_end: self.proof_end,
        }
    }
}

/// The requests of an operation in the order in which they are sent: the
/// question for every source leaf, then the removal of every source leaf, then
/// the new leaves.
pub open spec fn ordered_requests(sources: Seq<LeafRemoval>, mints: Seq<MintLeaf>) -> Seq<
    TreeRequest,
> {
    sources.map_values(|source: LeafRemoval| source.verify_request()) + sources.map_values(
        |source: LeafRemoval| source.burn_request(),
    ) + mints.map_values(|mint: MintLeaf| TreeRequest::Mint { mint })
}

/// Lines up the requests of an operation in the order in which they are sent.
pub fn line_up(sources: &Vec<LeafRemoval>, mints: Vec<MintLeaf>) -> (requests: Vec<TreeRequest>)
    ensures
        requests@ == ordered_requests(sources@, mints@),
{
    let ghost verifies = sources@.map_values(|source: LeafRemoval| source.verify_request());
    let ghost burns = sources@.map_values(|source: LeafRemoval| source.burn_request());
    let ghost appended = mints@.map_values(|mint: MintLeaf| TreeRequest::Mint { mint });
    let mut requests: Vec<TreeRequest> = Vec::new();
    let mut i: usize = 0;
    while i < sources.len()
        invariant
            0 <= i <= sources.len(),
            verifies == sources@.map_values(|source: LeafRemoval| source.verify_request()),
            requests@ == verifies.take(i as int),
        decreases sources.len() - i,
    {
        let source = &sources[i];
        requests.push(
            TreeRequest::Verify {
                verify: source.verify,
                proof_start: source.proof_start,
                proof_end: source.proof_end,
            },
        );
        assert(requests@ =~= verifies.take(i + 1));
        i += 1;
    }
    assert(verifies.take(i as int) =~= verifies);
    let mut j: usize = 0;
    while j < sources.len()
        invariant
            0 <= j <= sources.len(),
            burns == sources@.map_values(|source: LeafRemoval| source.burn_request()),
            requests@ == verifies + burns.take(j as int),
        decreases sources.len() - j,
    {
        let source = &sources[j];
        requests.push(
            TreeRequest::Burn {
                burn: source.burn,
                proof_start: source.proof_start,
                proof_end: source.proof_end,
            },
        );
        assert(requests@ =~= verifies + burns.take(j + 1));
        j += 1;
    }
    assert(burns.take(j as int) =~= burns);
    let ghost all = mints@;
    for mint in it: mints
        invariant
            it.seq() == all,
            appended == all.map_values(|mint: MintLeaf| TreeRequest::Mint { mint }),
            requests@ == verifies + burns + appended.take(it.index() as int),
    {
        requests.push(TreeRequest::Mint { mint });
        assert(requests@ =~= verifies + burns + appended.take(it.index() + 1));
    }
    assert(appended.take(all.len() as int) =~= appended);
    requests
}

/// In the order of sending, the question for a source leaf comes before every
/// removal, and every removal before every new leaf.
pub proof fn lemma_order_of_requests(
    sources: Seq<LeafRemoval>,
    mints: Seq<MintLeaf>,
    verify: int,
    burn: int,
    mint: int,
)
    requires
        0 <= verify < sources.len(),
        0 <= burn < sources.len(),
        0 <= mint < mints.len(),
    ensures
        ordered_requests(sources, mints).len() == 2 * sources.len() + mints.len(),
        ordered_requests(sources, mints)[verify] == sources[verify].verify_request(),
        ordered_requests(sources, mints)[sources.len() + burn] == sources[burn].burn_request(),
        ordered_requests(sources, mints)[2 * sources.len() + mint] == (TreeRequest::Mint {
            mint: mints[mint],
        }),
        verify < sources.len() + burn < 2 * sources.len() + mint,
{
}

/// The accounts of an operation that spends leaves of one collection in one
/// tree, with the symbol read from the collection's metadata and the length
/// of the proof path that came with the operation.
#[derive(Clone, Debug, PartialEq, Eq)]
pub struct LeafAccounts {
    pub leaf_owner: Party,
    pub leaf_delegate: Party,
    pub new_leaf_owner: Pubkey,
    pub collection_mint: Pubkey,
    pub collection_symbol: String,
    pub tiny_spl_authority: Pubkey,
    pub merkle_tree: Pubkey,
    pub proof_path_len: usize,
}

/// The accounts of a split.
pub type Split = LeafAccounts;

/// The accounts of a combination.
pub type Combine = LeafAccounts;

impl LeafAccounts {
    /// The record of a balance of `amount` in these accounts' collection.
    pub open spec fn record(self, amount: u64) -> CnftMetadataView {
        tiny_spl_metadata(
            self.collection_symbol@,
            amount,
            self.collection_mint,
            self.tiny_spl_authority,
        )
    }

    /// Why the leaf that should hold `amount` at `nonce` under the id
    /// `asset_id` is not spent, if it is not.
    pub open spec fn removal_refusal(self, amount: u64, asset_id: Pubkey, nonce: u64) -> Option<
        TinySplError,
    > {
        let refusal = leaf_refusal(
            self.record(amount),
            self.leaf_owner,
            self.leaf_delegate,
            self.collection_mint,
        );
        if refusal is Some {
            refusal
        } else if asset_id@ != asset_id_of(self.merkle_tree@, nonce) {
            Some(TinySplError::AssetIdMismatch)
        } else {
            None
        }
    }

    /// `removal` spends the leaf that holds `amount` for these accounts' owner
    /// and delegate at `nonce` and `index`, against `root`.
    pub open spec fn removes(
        self,
        removal: LeafRemoval,
        amount: u64,
        root: [u8; 32],
        nonce: u64,
        index: u32,
    ) -> bool {
        &&& removal.verify.merkle_tree == self.merkle_tree
        &&& removal.verify.root == root
        &&& removal.verify.index == index
        &&& removal.verify.leaf@ == leaf_hash_of(
            self.merkle_tree@,
            nonce,
            self.leaf_owner.key@,
            self.leaf_delegate.key@,
            self.record(amount),
        )
        &&& removal.burn.merkle_tree == self.merkle_tree
        &&& removal.burn.leaf_owner == self.leaf_owner.key
        &&& removal.burn.leaf_delegate == self.leaf_delegate.key
        &&& removal.burn.root == root
        &&& removal.burn.data_hash@ == data_hash_of(self.record(amount))
        &&& removal.burn.creator_hash@ == creator_hash_of(self.record(amount).creators)
        &&& removal.burn.nonce == nonce
        &&& removal.burn.index == index
    }

    /// The record of a balance never fails to name these accounts' collection.
    pub proof fn lemma_record_names_collection(self, amount: u64, asset_id: Pubkey, nonce: u64)
        ensures
            self.removal_refusal(amount, asset_id, nonce) != Some(
                TinySplError::CollectionMismatch,
            ),
    {
    }

    /// The record of a balance of `amount` in these accounts' collection.
    pub fn balance_record(&self, amount: u64) -> (metadata: CnftMetadata)
        ensures
            metadata@ == self.record(amount),
    {
        get_tiny_spl_metadata(
            self.collection_symbol.clone(),
            amount,
            self.collection_mint,
            self.tiny_spl_authority,
        )
    }

    /// The request that appends a balance of `amount` for the new owner.
    pub fn mint_request(&self, amount: u64) -> (mint: MintLeaf)
        ensures
            mint.mints(self.merkle_tree, self.new_leaf_owner, self.record(amount)),
    {
        MintLeaf {
            merkle_tree: self.merkle_tree,
            leaf_owner: self.new_leaf_owner,
            leaf_delegate: self.new_leaf_owner,
            metadata: self.balance_record(amount),
        }
    }

    /// Checks the leaf that should hold `amount` at `nonce` under the id
    /// `asset_id`, and prepares the two requests that spend it.
    ///
    /// The leaf is checked as in `verify_cnft_metadata`; then `asset_id` must
    /// be the id that tree and nonce give (`AssetIdMismatch`).
    pub fn leaf_removal(
        &self,
        amount: u64,
        asset_id: &Pubkey,
        root: [u8; 32],
        nonce: u64,
        index: u32,
        proof_start: usize,
        proof_end: usize,
    ) -> (result: Result<LeafRemoval, TinySplError>)
        ensures
            match result {
                Ok(removal) => self.removal_refusal(amount, *asset_id, nonce) is None
                    && self.removes(removal, amount, root, nonce, index) && removal.proof_start
                    == proof_start && removal.proof_end == proof_end,
                Err(e) => self.removal_refusal(amount, *asset_id, nonce) == Some(e),
            },
    {
        let metadata = self.balance_record(amount);
        let check = verify_cnft_metadata(
            root,
            &metadata,
            nonce,
            index,
            &self.merkle_tree,
            &self.leaf_owner,
            &self.leaf_delegate,
            &self.collection_mint,
        )?;
        if !same_key(&check.asset_id, asset_id) {
            proof {
                if asset_id@ == asset_id_of(self.merkle_tree@, nonce) {
                    assert(check.asset_id =~= *asset_id);
                }
            }
            return Err(TinySplError::AssetIdMismatch);
        }
        Ok(
            LeafRemoval {
                verify: check.request,
                burn: BurnLeaf {
                    merkle_tree: self.merkle_tree,
                    leaf_owner: self.leaf_owner.key,
                    leaf_delegate: self.leaf_delegate.key,
                    root,
                    data_hash: check.data_hash,
                    creator_hash: check.creator_hash,
                    nonce,
                    index,
                },
                proof_start,
                proof_end,
            },
        )
    }
}

} // verus!
