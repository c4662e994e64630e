//! Conservation of amounts: what a split or a combination must satisfy before
//! any leaf is touched.

use vstd::prelude::*;
use crate::error::TinySplError;
use crate::keys::{same_key, Pubkey};

verus! {

/// Sum of a list of amounts, as a mathematical integer.
pub open spec fn total(amounts: Seq<u64>) -> int
    decreases amounts.len(),
{
    if amounts.len() == 0 {
        0
    } else {
        total(amounts.drop_last()) + amounts.last()
    }
}

/// No amount in the list is zero.
pub open spec fn all_positive(amounts: Seq<u64>) -> bool {
    forall|i: int| 0 <= i < amounts.len() ==> amounts[i] > 0
}

/// The destinations of a split are all positive and add up to the source.
pub open spec fn conserves(source_amount: u64, amounts: Seq<u64>) -> bool {
    total(amounts) == source_amount && all_positive(amounts)
}

/// The sum of a prefix never exceeds the sum of the whole list.
pub proof fn lemma_total_prefix(amounts: Seq<u64>, n: int)
    requires
        0 <= n <= amounts.len(),
    ensures
        0 <= total(amounts.take(n)) <= total(amounts),
    decreases amounts.len() - n,
{
    if n == amounts.len() {
        assert(amounts.take(n) =~= amounts);
        lemma_total_nonnegative(amounts);
    } else {
        lemma_total_prefix(amounts, n + 1);
        assert(amounts.take(n + 1).drop_last() =~= amounts.take(n));
        lemma_total_nonnegative(amounts.take(n));
    }
}

/// A sum of amounts is never negative.
pub proof fn lemma_total_nonnegative(amounts: Seq<u64>)
    ensures
        0 <= total(amounts),
    decreases amounts.len(),
{
    if amounts.len() > 0 {
        lemma_total_nonnegative(amounts.drop_last());
    }
}

/// Adds up `amounts`; `None` when the sum does not fit in 64 bits.
pub fn checked_total(amounts: &Vec<u64>) -> (sum: Option<u64>)
    ensures
        sum is Some <==> total(amounts@) <= u64::MAX,
        sum matches Some(t) ==> t == total(amounts@),
{
    let mut acc: u64 = 0;
    let mut i: usize = 0;
    while i < amounts.len()
        invariant
            0 <= i <= amounts.len(),
            acc == total(amounts@.take(i as int)),
        decreases amounts.len() - i,
    {
        proof {
            assert(amounts@.take(i + 1).drop_last() =~= amounts@.take(i as int));
            lemma_total_prefix(amounts@, i + 1);
        }
        match acc.checked_add(amounts[i]) {
            Some(next) => {
                acc = next;
            },
            None => {
                return None;
            },
        }
        i += 1;
    }
    proof {
        assert(amounts@.take(i as int) =~= amounts@);
    }
    Some(acc)
}

/// Checks the destination amounts of a split against the source amount.
///
/// Succeeds exactly when every destination is positive and the destinations
/// add up to `source_amount`; a sum beyond 64 bits cannot equal the source and
/// is refused like any other mismatch.
pub fn verify_token_splits(source_amount: u64, amounts: &Vec<u64>) -> (result: Result<
    (),
    TinySplError,
>)
    ensures
        result is Ok <==> conserves(source_amount, amounts@),
        result is Err ==> result == Err::<(), TinySplError>(TinySplError::InvalidSplitAmounts),
{
    let sum = checked_total(amounts);
    let mut positive = true;
    let mut i: usize = 0;
    while i < amounts.len()
        invariant
            0 <= i <= amounts.len(),
            positive <==> all_positive(amounts@.take(i as int)),
        decreases amounts.len() - i,
    {
        proof {
            let before = amounts@.take(i as int);
            let after = amounts@.take(i + 1);
            assert(forall|j: int| 0 <= j < before.len() ==> before[j] == after[j]);
            assert(after[i as int] == amounts@[i as int]);
            if all_positive(after) {
                assert forall|j: int| 0 <= j < before.len() implies before[j] > 0 by {
                    assert(after[j] > 0);
                }
            }
        }
        if amounts[i] == 0 {
            positive = false;
        }
        i += 1;
    }
    proof {
        assert(amounts@.take(i as int) =~= amounts@);
    }
    match sum {
        Some(t) => {
            if t == source_amount && positive {
                Ok(())
            } else {
                Err(TinySplError::InvalidSplitAmounts)
            }
        },
        None => Err(TinySplError::InvalidSplitAmounts),
    }
}

/// A split whose destinations are positive and fit in 64 bits is accepted when
/// the source is their sum.
pub proof fn lemma_split_of_own_total(amounts: Seq<u64>)
    requires
        all_positive(amounts),
        total(amounts) <= u64::MAX,
    ensures
        conserves(total(amounts) as u64, amounts),
{
    lemma_total_nonnegative(amounts);
}

/// A list that holds a zero conserves no source amount.
pub proof fn lemma_zero_never_conserves(source_amount: u64, amounts: Seq<u64>, i: int)
    requires
        0 <= i < amounts.len(),
        amounts[i] == 0,
    ensures
        !conserves(source_amount, amounts),
{
}

/// The parallel lists of a combination describe the same number of leaves.
pub open spec fn same_lengths(
    amounts: nat,
    asset_ids: nat,
    roots: nat,
    nonces: nat,
    indexes: nat,
    proof_ends: nat,
) -> bool {
    amounts == asset_ids && amounts == roots && amounts == nonces && amounts == indexes
        && amounts == proof_ends
}

/// What `verify_combine` returns, as a function of its arguments.
pub open spec fn combine_check(
    amounts: Seq<u64>,
    asset_ids: Seq<Pubkey>,
    roots: nat,
    nonces: nat,
    indexes: nat,
    proof_ends: nat,
) -> Result<u64, TinySplError> {
    if !same_lengths(amounts.len(), asset_ids.len(), roots, nonces, indexes, proof_ends) {
        Err(TinySplError::InvalidCombineParameters)
    } else if !asset_ids.no_duplicates() {
        Err(TinySplError::CannotCombineSameAsset)
    } else if total(amounts) > u64::MAX {
        Err(TinySplError::ArithmeticOverflow)
    } else {
        Ok(total(amounts) as u64)
    }
}

/// Whether `id` occurs among the first `n` entries of `ids`.
fn occurs_before(ids: &Vec<Pubkey>, n: usize, id: &Pubkey) -> (found: bool)
    requires
        n <= ids.len(),
    ensures
        found <==> exists|j: int| 0 <= j < n && ids@[j] == *id,
{
    let mut j: usize = 0;
    while j < n
        invariant
            0 <= j <= n <= ids.len(),
            forall|k: int| 0 <= k < j ==> ids@[k] != *id,
        decreases n - j,
    {
        if same_key(&ids[j], id) {
            return true;
        }
        j += 1;
    }
    false
}

/// Whether no asset id occurs twice.
pub fn all_distinct(ids: &Vec<Pubkey>) -> (distinct: bool)
    ensures
        distinct == ids@.no_duplicates(),
{
    let mut i: usize = 0;
    while i < ids.len()
        invariant
            0 <= i <= ids.len(),
            forall|a: int, b: int| 0 <= a < b < i ==> ids@[a] != ids@[b],
        decreases ids.len() - i,
    {
        if occurs_before(ids, i, &ids[i]) {
            return false;
        }
        i += 1;
    }
    true
}

/// Checks the inputs of a combination and adds up what it brings together.
///
/// The six lists must describe the same number of leaves, no asset id may
/// occur twice, and the sum of the amounts must fit in 64 bits. The checks are
/// made in this order and the first that fails gives the error.
pub fn verify_combine(
    amounts: &Vec<u64>,
    asset_ids: &Vec<Pubkey>,
    roots: &Vec<[u8; 32]>,
    nonces: &Vec<u64>,
    indexes: &Vec<u32>,
    proof_path_end_indexes_exclusive: &Vec<u32>,
) -> (result: Result<u64, TinySplError>)
    ensures
        result == combine_check(
            amounts@,
            asset_ids@,
            roots@.len(),
            nonces@.len(),
            indexes@.len(),
            proof_path_end_indexes_exclusive@.len(),
        ),
{
    let n = amounts.len();
    if !(n == asset_ids.len() && n == roots.len() && n == nonces.len() && n == indexes.len()
        && n == proof_path_end_indexes_exclusive.len()) {
        return Err(TinySplError::InvalidCombineParameters);
    }
    if !all_distinct(asset_ids) {
        return Err(TinySplError::CannotCombineSameAsset);
    }
    match checked_total(amounts) {
        Some(sum) => Ok(sum),
        None => Err(TinySplError::ArithmeticOverflow),
    }
}

/// A combination whose lists agree in length and that names one asset twice is
/// refused as such, whatever the amounts are.
pub proof fn lemma_repeated_asset_refused(
    amounts: Seq<u64>,
    asset_ids: Seq<Pubkey>,
    roots: nat,
    nonces: nat,
    indexes: nat,
    proof_ends: nat,
    i: int,
    j: int,
)
    requires
        same_lengths(amounts.len(), asset_ids.len(), roots, nonces, indexes, proof_ends),
        0 <= i < j < asset_ids.len(),
        asset_ids[i] == asset_ids[j],
    ensures
        combine_check(amounts, asset_ids, roots, nonces, indexes, proof_ends) == Err::<
            u64,
            TinySplError,
        >(TinySplError::CannotCombineSameAsset),
{
}

} // verus!
