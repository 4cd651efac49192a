//! Which track plays next: by weighted draw while shuffling, in catalog
//! order otherwise.

use vstd::prelude::*;
use crate::utils::{total_weight, weighted_random_selection, RandomSource, SelectionError};

verus! {

/// The weight with which a track enters the draw: nothing where it is
/// excluded, else its weight, doubled where it is starred.
pub open spec fn effective_weight(weight: u32, starred: bool, excluded: bool) -> nat {
    if excluded {
        0
    } else if starred {
        2 * weight as nat
    } else {
        weight as nat
    }
}

/// The effective weights of the first `upto` tracks, added up.
pub open spec fn effective_total(
    weights: Seq<u32>,
    starred: Seq<bool>,
    excluded: Seq<bool>,
    upto: int,
) -> nat
    decreases upto,
{
    if upto <= 0 {
        0
    } else {
        effective_total(weights, starred, excluded, upto - 1) + effective_weight(
            weights[upto - 1],
            starred[upto - 1],
            excluded[upto - 1],
        )
    }
}

/// The effective weights of more tracks add up to no less.
pub proof fn lemma_effective_total_grows(
    weights: Seq<u32>,
    starred: Seq<bool>,
    excluded: Seq<bool>,
    k: int,
    n: int,
)
    requires
        0 <= k <= n,
    ensures
        effective_total(weights, starred, excluded, k) <= effective_total(
            weights,
            starred,
            excluded,
            n,
        ),
    decreases n - k,
{
    if k < n {
        lemma_effective_total_grows(weights, starred, excluded, k, n - 1);
    }
}

/// The effective weights of the first tracks add up to no less than that of
/// any one of them.
pub proof fn lemma_effective_total_covers(
    weights: Seq<u32>,
    starred: Seq<bool>,
    excluded: Seq<bool>,
    upto: int,
    index: int,
)
    requires
        0 <= index < upto,
    ensures
        effective_weight(weights[index], starred[index], excluded[index]) <= effective_total(
            weights,
            starred,
            excluded,
            upto,
        ),
    decreases upto,
{
    if index < upto - 1 {
        lemma_effective_total_covers(weights, starred, excluded, upto - 1, index);
    }
}

/// Draws the next track while shuffling.
///
/// Each track enters with its effective weight. The result is a track of
/// positive effective weight whenever there is one; there is none exactly
/// when every track is excluded or has weight 0.
pub fn choose_weighted(
    weights: &[u32],
    starred: &[bool],
    excluded: &[bool],
    random: &mut RandomSource,
) -> (chosen: Result<usize, SelectionError>)
    requires
        starred@.len() == weights@.len(),
        excluded@.len() == weights@.len(),
    ensures
        effective_total(weights@, starred@, excluded@, weights@.len() as int) == 0 ==> chosen
            == Err::<usize, SelectionError>(SelectionError::NoEligibleTracks),
        effective_total(weights@, starred@, excluded@, weights@.len() as int) > u32::MAX
            ==> chosen == Err::<usize, SelectionError>(SelectionError::WeightOverflow),
        0 < effective_total(weights@, starred@, excluded@, weights@.len() as int) <= u32::MAX
            ==> (chosen matches Ok(index) && index < weights@.len() && effective_weight(
            weights@[index as int],
            starred@[index as int],
            excluded@[index as int],
        ) > 0),
{
    let len = weights.len();
    let mut effective: Vec<u32> = Vec::new();
    let mut i: usize = 0;
    while i < len
        invariant
            i <= len == weights@.len(),
            starred@.len() == len,
            excluded@.len() == len,
            effective@.len() == i,
            forall|k: int|
                0 <= k < i ==> #[trigger] effective@[k] == effective_weight(
                    weights@[k],
                    starred@[k],
                    excluded@[k],
                ),
            total_weight(effective@) == effective_total(weights@, starred@, excluded@, i as int),
        decreases len - i,
    {
        let weight: u32 = if excluded[i] {
            0
        } else if starred[i] {
            if weights[i] > u32::MAX / 2 {
                proof {
                    lemma_effective_total_grows(weights@, starred@, excluded@, i + 1, len as int);
                }
                return Err(SelectionError::WeightOverflow);
            }
            2 * weights[i]
        } else {
            weights[i]
        };
        let ghost before = effective@;
        effective.push(weight);
        assert(effective@.drop_last() =~= before);
        i += 1;
    }
    weighted_random_selection(effective.as_slice(), random)
}

/// The first eligible track at or after `start`, going round the catalog
/// once; `tried` counts the tracks passed over.
pub open spec fn first_eligible_from(excluded: Seq<bool>, start: int, tried: int) -> Option<int>
    decreases excluded.len() - tried,
{
    if tried < 0 || tried >= excluded.len() {
        None
    } else if !excluded[(start + tried) % (excluded.len() as int)] {
        Some((start + tried) % (excluded.len() as int))
    } else {
        first_eligible_from(excluded, start, tried + 1)
    }
}

/// The track that follows `current` in catalog order, passing over what is
/// excluded and going on from the first track after the last.
pub open spec fn next_in_order(excluded: Seq<bool>, current: int) -> Option<int> {
    first_eligible_from(excluded, current + 1, 0)
}

/// Finds the next track in catalog order.
///
/// The scan starts behind the current track and wraps round; it fails where
/// every track is excluded.
pub fn choose_next(current_index: usize, excluded: &[bool]) -> (chosen: Result<
    usize,
    SelectionError,
>)
    ensures
        chosen == match next_in_order(excluded@, current_index as int) {
            Some(index) => Ok::<usize, SelectionError>(index as usize),
            None => Err::<usize, SelectionError>(SelectionError::NoEligibleTracks),
        },
        chosen matches Ok(index) ==> index < excluded@.len() && !excluded@[index as int],
{
    let len = excluded.len();
    if len == 0 {
        return Err(SelectionError::NoEligibleTracks);
    }
    let first: usize = (current_index % len + 1) % len;
    assert(first == (current_index + 1) % (len as int)) by (nonlinear_arith)
        requires
            len > 0,
            first == (current_index % len + 1) % (len as int),
    ;
    let mut tried: usize = 0;
    let mut at: usize = first;
    while tried < len
        invariant
            tried <= len == excluded@.len(),
            0 < len,
            at < len,
            at == (current_index + 1 + tried) % (len as int) || tried == len,
            next_in_order(excluded@, current_index as int) == first_eligible_from(
                excluded@,
                current_index + 1,
                tried as int,
            ),
        decreases len - tried,
    {
        if !excluded[at] {
            return Ok(at);
        }
        let next: usize = if at + 1 == len {
            0
        } else {
            at + 1
        };
        assert(tried + 1 < len ==> next == (current_index + 1 + tried + 1) % (len as int)) by (nonlinear_arith)
            requires
                len > 0,
                at < len,
                at == (current_index + 1 + tried) % (len as int),
                next == if at + 1 == len {
                    0
                } else {
                    at + 1
                },
        ;
        at = next;
        tried += 1;
    }
    Err(SelectionError::NoEligibleTracks)
}

/// After the last track the first one follows, where it is eligible.
pub proof fn lemma_sequential_wraps(excluded: Seq<bool>)
    requires
        excluded.len() > 0,
        !excluded[0],
    ensures
        next_in_order(excluded, excluded.len() - 1) == Some(0int),
{
    let len = excluded.len() as int;
    assert((len - 1 + 1 + 0) % len == 0) by (nonlinear_arith)
        requires
            len > 0,
    ;
}

} // verus!
