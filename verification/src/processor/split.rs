//! One balance becomes several.

use vstd::prelude::*;
use crate::amounts::{conserves, verify_token_splits};
use crate::error::TinySplError;
use crate::identity::asset_id_of;
use crate::keys::Pubkey;
use crate::layout::serializable;
use crate::processor::requests::{
    line_up, ordered_requests, LeafAccounts, LeafRemoval, MintLeaf, Split, TreeRequest,
};

verus! {

/// The requests of a split, to be sent in this order: the question whether the
/// source leaf is in the tree, the removal of the source leaf, then the new
/// leaves one by one. A request that the tree service refuses ends the
/// operation.
#[derive(Clone, Debug, PartialEq, Eq)]
pub struct SplitPlan {
    pub source: LeafRemoval,
    pub mints: Vec<MintLeaf>,
}

/// Why a split is refused, if it is: the amounts are checked first, then the
/// source leaf.
pub open spec fn split_refusal(
    ctx: LeafAccounts,
    source_amount: u64,
    asset_id: Pubkey,
    nonce: u64,
    destination_amounts: Seq<u64>,
) -> Option<TinySplError> {
    if !conserves(source_amount, destination_amounts) {
        Some(TinySplError::InvalidSplitAmounts)
    } else {
        ctx.removal_refusal(source_amount, asset_id, nonce)
    }
}

impl SplitPlan {
    /// The plan spends the leaf of `source_amount` with the whole proof path
    /// and appends one leaf for each destination amount, in their order.
    pub open spec fn splits(
        self,
        ctx: LeafAccounts,
        source_amount: u64,
        root: [u8; 32],
        nonce: u64,
        index: u32,
        destination_amounts: Seq<u64>,
    ) -> bool {
        &&& ctx.removes(self.source, source_amount, root, nonce, index)
        &&& self.source.proof_start == 0
        &&& self.source.proof_end == ctx.proof_path_len
        &&& self.mints@.len() == destination_amounts.len()
        &&& forall|i: int|
            0 <= i < destination_amounts.len() ==> (#[trigger] self.mints@[i]).mints(
                ctx.merkle_tree,
                ctx.new_leaf_owner,
                ctx.record(destination_amounts[i]),
            )
    }
}

impl SplitPlan {
    /// The requests of the plan in the order in which they are sent.
    pub fn requests(self) -> (requests: Vec<TreeRequest>)
        ensures
            requests@ == ordered_requests(seq![self.source], self.mints@),
    {
        let mut sources: Vec<LeafRemoval> = Vec::new();
        sources.push(self.source);
        assert(sources@ =~= seq![self.source]);
        line_up(&sources, self.mints)
    }
}

/// Plans the split of the leaf that holds `source_amount` into one leaf for
/// each of `destination_amounts`.
///
/// The destinations must be positive and add up to the source
/// (`InvalidSplitAmounts`); amounts that fail this are refused as such whatever
/// the accounts and the asset id are. Then the source leaf must pass the checks
/// of `leaf_removal`. No request is planned unless every check passes.
pub fn split(
    ctx: &Split,
    source_amount: u64,
    asset_id: Pubkey,
    root: [u8; 32],
    nonce: u64,
    index: u32,
    destination_amounts: &Vec<u64>,
) -> (result: Result<SplitPlan, TinySplError>)
    ensures
        match result {
            Ok(plan) => split_refusal(*ctx, source_amount, asset_id, nonce, destination_amounts@)
                is None && plan.splits(
                *ctx,
                source_amount,
                root,
                nonce,
                index,
                destination_amounts@,
            ),
            Err(e) => split_refusal(*ctx, source_amount, asset_id, nonce, destination_amounts@)
                == Some(e),
        },
{
    verify_token_splits(source_amount, destination_amounts)?;
    let source = ctx.leaf_removal(
        source_amount,
        &asset_id,
        root,
        nonce,
        index,
        0,
        ctx.proof_path_len,
    )?;
    let mut mints: Vec<MintLeaf> = Vec::new();
    let mut i: usize = 0;
    while i < destination_amounts.len()
        invariant
            0 <= i <= destination_amounts.len(),
            mints@.len() == i,
            forall|k: int|
                0 <= k < i ==> (#[trigger] mints@[k]).mints(
                    ctx.merkle_tree,
                    ctx.new_leaf_owner,
                    ctx.record(destination_amounts@[k]),
                ),
        decreases destination_amounts.len() - i,
    {
        mints.push(ctx.mint_request(destination_amounts[i]));
        i += 1;
    }
    Ok(SplitPlan { source, mints })
}

/// Destinations that hold a zero or do not add up to the source are refused
/// as such, whoever signed and whatever the asset id is.
pub proof fn lemma_amounts_decide_first(
    ctx: LeafAccounts,
    source_amount: u64,
    asset_id: Pubkey,
    nonce: u64,
    destination_amounts: Seq<u64>,
)
    requires
        !conserves(source_amount, destination_amounts),
    ensures
        split_refusal(ctx, source_amount, asset_id, nonce, destination_amounts) == Some(
            TinySplError::InvalidSplitAmounts,
        ),
{
}

/// A split is planned when its destinations conserve the source, the owner or
/// the delegate signed, the asset id is the one that tree and nonce give, and
/// the record of the source has bytes.
pub proof fn lemma_split_is_planned(
    ctx: LeafAccounts,
    source_amount: u64,
    asset_id: Pubkey,
    nonce: u64,
    destination_amounts: Seq<u64>,
)
    requires
        conserves(source_amount, destination_amounts),
        ctx.leaf_owner.is_signer || ctx.leaf_delegate.is_signer,
        asset_id@ == asset_id_of(ctx.merkle_tree@, nonce),
        serializable(ctx.record(source_amount)),
    ensures
        split_refusal(ctx, source_amount, asset_id, nonce, destination_amounts) is None,
{
}

/// The requests of a split that is planned are, in the order of sending: the
/// question for the source leaf, the one removal of the source leaf, and then
/// one new leaf for each destination, which holds the record of that
/// destination's amount for the new owner.
pub proof fn lemma_split_requests(
    plan: SplitPlan,
    ctx: LeafAccounts,
    source_amount: u64,
    root: [u8; 32],
    nonce: u64,
    index: u32,
    destination_amounts: Seq<u64>,
)
    requires
        plan.splits(ctx, source_amount, root, nonce, index, destination_amounts),
    ensures
        ordered_requests(seq![plan.source], plan.mints@).len() == 2 + destination_amounts.len(),
        ordered_requests(seq![plan.source], plan.mints@)[0] == plan.source.verify_request(),
        ordered_requests(seq![plan.source], plan.mints@)[1] == plan.source.burn_request(),
        ctx.removes(plan.source, source_amount, root, nonce, index),
        plan.source.proof_start == 0 && plan.source.proof_end == ctx.proof_path_len,
        plan.mints@.len() == destination_amounts.len(),
        forall|i: int|
            0 <= i < destination_amounts.len() ==> {
                &&& #[trigger] ordered_requests(seq![plan.source], plan.mints@)[2 + i]
                    == (TreeRequest::Mint { mint: plan.mints@[i] })
                &&& plan.mints@[i].mints(
                    ctx.merkle_tree,
                    ctx.new_leaf_owner,
                    ctx.record(destination_amounts[i]),
                )
            },
{
}

/// A split that is planned conserves the amount: its new leaves are positive
/// and add up to the leaf that it removes.
pub proof fn lemma_split_conserves(
    ctx: LeafAccounts,
    source_amount: u64,
    asset_id: Pubkey,
    nonce: u64,
    destination_amounts: Seq<u64>,
)
    requires
        split_refusal(ctx, source_amount, asset_id, nonce, destination_amounts) is None,
    ensures
        conserves(source_amount, destination_amounts),
{
}

} // verus!
