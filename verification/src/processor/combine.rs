//! Several balances become one.

use vstd::prelude::*;
use crate::amounts::{combine_check, same_lengths, total, verify_combine};
use crate::error::TinySplError;
use crate::keys::Pubkey;
use crate::processor::requests::{
    line_up, ordered_requests, Combine, LeafAccounts, LeafRemoval, MintLeaf, TreeRequest,
};

verus! {

/// The requests of a combination, to be sent in this order: for every source
/// leaf the question whether it is in the tree, then the removal of every
/// source leaf, then the one new leaf. A request that the tree service refuses
/// ends the operation.
#[derive(Clone, Debug, PartialEq, Eq)]
pub struct CombinePlan {
    pub sources: Vec<LeafRemoval>,
    pub mint: MintLeaf,
}

/// Where the proof segment of leaf `i` starts: where that of the leaf before
/// it ends.
pub open spec fn segment_start(ends: Seq<u32>, i: int) -> int {
    if i == 0 {
        0
    } else {
        ends[i - 1] as int
    }
}

/// The boundaries cut the proof path into consecutive segments: none ends
/// before it starts, and none reaches beyond the path.
pub open spec fn segments_fit(ends: Seq<u32>, proof_path_len: nat) -> bool {
    forall|i: int|
        0 <= i < ends.len() ==> segment_start(ends, i) <= #[trigger] ends[i] <= proof_path_len
}

/// Why one of the first `n` source leaves is not spent, if one is not: the
/// refusal of the first such leaf.
pub open spec fn sources_refusal(
    ctx: LeafAccounts,
    amounts: Seq<u64>,
    asset_ids: Seq<Pubkey>,
    nonces: Seq<u64>,
    n: int,
) -> Option<TinySplError>
    decreases n,
{
    if n <= 0 {
        None
    } else {
        let before = sources_refusal(ctx, amounts, asset_ids, nonces, n - 1);
        if before is Some {
            before
        } else {
            ctx.removal_refusal(amounts[n - 1], asset_ids[n - 1], nonces[n - 1])
        }
    }
}

/// Why a combination is refused, if it is: the lists and amounts are checked
/// first, then the proof boundaries, then the source leaves in their order.
pub open spec fn combine_refusal(
    ctx: LeafAccounts,
    amounts: Seq<u64>,
    asset_ids: Seq<Pubkey>,
    roots: Seq<[u8; 32]>,
    nonces: Seq<u64>,
    indexes: Seq<u32>,
    ends: Seq<u32>,
) -> Option<TinySplError> {
    match combine_check(amounts, asset_ids, roots.len(), nonces.len(), indexes.len(), ends.len()) {
        Err(e) => Some(e),
        Ok(_) => if !segments_fit(ends, ctx.proof_path_len as nat) {
            Some(TinySplError::InvalidCombineParameters)
        } else {
            sources_refusal(ctx, amounts, asset_ids, nonces, amounts.len() as int)
        },
    }
}

impl CombinePlan {
    /// The first `n` removals spend the first `n` source leaves, each with its
    /// own segment of the proof path.
    pub open spec fn spends(
        sources: Seq<LeafRemoval>,
        ctx: LeafAccounts,
        amounts: Seq<u64>,
        roots: Seq<[u8; 32]>,
        nonces: Seq<u64>,
        indexes: Seq<u32>,
        ends: Seq<u32>,
        n: int,
    ) -> bool {
        forall|i: int|
            0 <= i < n ==> {
                &&& ctx.removes(#[trigger] sources[i], amounts[i], roots[i], nonces[i], indexes[i])
                &&& sources[i].proof_start == segment_start(ends, i)
                &&& sources[i].proof_end == ends[i]
            }
    }

    /// The plan spends every source leaf with its own segment of the proof
    /// path, in their order, and appends one leaf that holds their sum.
    pub open spec fn combines(
        self,
        ctx: LeafAccounts,
        amounts: Seq<u64>,
        roots: Seq<[u8; 32]>,
        nonces: Seq<u64>,
        indexes: Seq<u32>,
        ends: Seq<u32>,
    ) -> bool {
        &&& self.sources@.len() == amounts.len()
        &&& Self::spends(
            self.sources@,
            ctx,
            amounts,
            roots,
            nonces,
            indexes,
            ends,
            amounts.len() as int,
        )
        &&& total(amounts) <= u64::MAX
        &&& self.mint.mints(
            ctx.merkle_tree,
            ctx.new_leaf_owner,
            ctx.record(total(amounts) as u64),
        )
    }
}

impl CombinePlan {
    /// The requests of the plan in the order in which they are sent.
    pub fn requests(self) -> (requests: Vec<TreeRequest>)
        ensures
            requests@ == ordered_requests(self.sources@, seq![self.mint]),
    {
        let mut mints: Vec<MintLeaf> = Vec::new();
        mints.push(self.mint);
        assert(mints@ =~= seq![self.mint]);
        line_up(&self.sources, mints)
    }
}

/// Whether the boundaries cut a proof path of `proof_path_len` entries into
/// consecutive segments.
pub fn check_segments(ends: &Vec<u32>, proof_path_len: usize) -> (fit: bool)
    ensures
        fit == segments_fit(ends@, proof_path_len as nat),
{
    let mut start: usize = 0;
    let mut i: usize = 0;
    while i < ends.len()
        invariant
            0 <= i <= ends.len(),
            start == segment_start(ends@, i as int),
            forall|k: int|
                0 <= k < i ==> segment_start(ends@, k) <= #[trigger] ends@[k] <= proof_path_len,
        decreases ends.len() - i,
    {
        let end = ends[i] as usize;
        if end < start || end > proof_path_len {
            return false;
        }
        start = end;
        i += 1;
    }
    true
}

/// Plans the combination of the leaves that hold `amounts` into one leaf that
/// holds their sum.
///
/// The six lists must agree in length (`InvalidCombineParameters`), no asset
/// id may occur twice (`CannotCombineSameAsset`), the sum must fit in 64 bits
/// (`ArithmeticOverflow`), the boundaries must cut the proof path into
/// consecutive segments (`InvalidCombineParameters`), and every source leaf
/// must pass the checks of `leaf_removal`. The checks are made in this order
/// and the first that fails gives the error. No request is planned unless
/// every check passes.
pub fn combine(
    ctx: &Combine,
    amounts: &Vec<u64>,
    asset_ids: &Vec<Pubkey>,
    roots: &Vec<[u8; 32]>,
    nonces: &Vec<u64>,
    indexes: &Vec<u32>,
    proof_path_end_indexes_exclusive: &Vec<u32>,
) -> (result: Result<CombinePlan, TinySplError>)
    ensures
        match result {
            Ok(plan) => combine_refusal(
                *ctx,
                amounts@,
                asset_ids@,
                roots@,
                nonces@,
                indexes@,
                proof_path_end_indexes_exclusive@,
            ) is None && plan.combines(
                *ctx,
                amounts@,
                roots@,
                nonces@,
                indexes@,
                proof_path_end_indexes_exclusive@,
            ),
            Err(e) => combine_refusal(
                *ctx,
                amounts@,
                asset_ids@,
                roots@,
                nonces@,
                indexes@,
                proof_path_end_indexes_exclusive@,
            ) == Some(e),
        },
{
    let sum = verify_combine(
        amounts,
        asset_ids,
        roots,
        nonces,
        indexes,
        proof_path_end_indexes_exclusive,
    )?;
    if !check_segments(proof_path_end_indexes_exclusive, ctx.proof_path_len) {
        return Err(TinySplError::InvalidCombineParameters);
    }
    let ghost ends = proof_path_end_indexes_exclusive@;
    let n = amounts.len();
    let mut sources: Vec<LeafRemoval> = Vec::new();
    let mut start: usize = 0;
    let mut i: usize = 0;
    while i < n
        invariant
            0 <= i <= n,
            n == amounts.len(),
            n == asset_ids.len(),
            n == roots.len(),
            n == nonces.len(),
            n == indexes.len(),
            n == proof_path_end_indexes_exclusive.len(),
            ends == proof_path_end_indexes_exclusive@,
            combine_check(
                amounts@,
                asset_ids@,
                roots@.len(),
                nonces@.len(),
                indexes@.len(),
                ends.len(),
            ) == Ok::<u64, TinySplError>(sum),
            segments_fit(ends, ctx.proof_path_len as nat),
            start == segment_start(ends, i as int),
            sources@.len() == i,
            sources_refusal(*ctx, amounts@, asset_ids@, nonces@, i as int) is None,
            CombinePlan::spends(
                sources@,
                *ctx,
                amounts@,
                roots@,
                nonces@,
                indexes@,
                ends,
                i as int,
            ),
        decreases n - i,
    {
        let end = proof_path_end_indexes_exclusive[i] as usize;
        proof {
            assert(segment_start(ends, i as int) <= ends[i as int] <= ctx.proof_path_len);
        }
        let removal = match ctx.leaf_removal(
            amounts[i],
            &asset_ids[i],
            roots[i],
            nonces[i],
            indexes[i],
            start,
            end,
        ) {
            Ok(removal) => removal,
            Err(e) => {
                proof {
                    lemma_refusal_stays(*ctx, amounts@, asset_ids@, nonces@, i + 1, n as int);
                }
                return Err(e);
            },
        };
        let ghost before = sources@;
        sources.push(removal);
        proof {
            assert forall|k: int| 0 <= k < i implies sources@[k] == before[k] by {}
        }
        start = end;
        i += 1;
    }
    Ok(CombinePlan { sources, mint: ctx.mint_request(sum) })
}

/// A refusal among the first `n` source leaves is the refusal of any longer
/// run of them.
pub proof fn lemma_refusal_stays(
    ctx: LeafAccounts,
    amounts: Seq<u64>,
    asset_ids: Seq<Pubkey>,
    nonces: Seq<u64>,
    n: int,
    m: int,
)
    requires
        0 <= n <= m,
        sources_refusal(ctx, amounts, asset_ids, nonces, n) is Some,
    ensures
        sources_refusal(ctx, amounts, asset_ids, nonces, m) == sources_refusal(
            ctx,
            amounts,
            asset_ids,
            nonces,
            n,
        ),
    decreases m - n,
{
    if n < m {
        lemma_refusal_stays(ctx, amounts, asset_ids, nonces, n, m - 1);
    }
}

/// A combination whose lists agree in length and that names one asset twice
/// is refused as such, whatever the amounts, the boundaries and the leaves are.
pub proof fn lemma_repeated_asset_never_combined(
    ctx: LeafAccounts,
    amounts: Seq<u64>,
    asset_ids: Seq<Pubkey>,
    roots: Seq<[u8; 32]>,
    nonces: Seq<u64>,
    indexes: Seq<u32>,
    ends: Seq<u32>,
    i: int,
    j: int,
)
    requires
        same_lengths(
            amounts.len(),
            asset_ids.len(),
            roots.len(),
            nonces.len(),
            indexes.len(),
            ends.len(),
        ),
        0 <= i < j < asset_ids.len(),
        asset_ids[i] == asset_ids[j],
    ensures
        combine_refusal(ctx, amounts, asset_ids, roots, nonces, indexes, ends) == Some(
            TinySplError::CannotCombineSameAsset,
        ),
{
}

/// A combination that is planned conserves the amount: its one new leaf holds
/// the sum of the leaves that it removes, and no leaf is removed twice.
pub proof fn lemma_combine_conserves(
    plan: CombinePlan,
    ctx: LeafAccounts,
    amounts: Seq<u64>,
    asset_ids: Seq<Pubkey>,
    roots: Seq<[u8; 32]>,
    nonces: Seq<u64>,
    indexes: Seq<u32>,
    ends: Seq<u32>,
)
    requires
        combine_refusal(ctx, amounts, asset_ids, roots, nonces, indexes, ends) is None,
        plan.combines(ctx, amounts, roots, nonces, indexes, ends),
    ensures
        plan.mint.metadata@ == ctx.record(total(amounts) as u64),
        plan.sources@.len() == amounts.len(),
        asset_ids.no_duplicates(),
{
}

} // verus!
