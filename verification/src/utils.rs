//! The weighted draw that shuffling rests on, and clock text.

use vstd::prelude::*;
use vstd::string::*;
use rand::rngs::StdRng;
use rand::{Rng, SeedableRng};
use crate::text::{append_decimal, decimal};

verus! {

/// The generator of the `rand` crate that a `RandomSource` draws from.
#[verifier::external_type_specification]
#[verifier::external_body]
pub struct ExStdRng(StdRng);

/// Calls `StdRng::seed_from_u64`, which builds a generator from a seed and
/// does not fail. Nothing is claimed of the generator.
#[verifier::external_body]
fn seeded_generator(seed: u64) -> StdRng {
    StdRng::seed_from_u64(seed)
}

/// Calls `Rng::gen_ratio`, which returns `true` with a chance of `numerator`
/// in `denominator`. Its documentation promises `false` for a numerator of 0
/// and `true` for a numerator equal to the denominator; it panics on a
/// denominator of 0 and on a numerator above the denominator, which the
/// precondition leaves out. Of other draws nothing is claimed.
#[verifier::external_body]
fn generate_ratio(generator: &mut StdRng, numerator: u32, denominator: u32) -> (hit: bool)
    requires
        0 < denominator,
        numerator <= denominator,
    ensures
        numerator == 0 ==> !hit,
        numerator == denominator ==> hit,
{
    generator.gen_ratio(numerator, denominator)
}

/// The source of the random draws of one session.
pub struct RandomSource {
    generator: StdRng,
}

impl RandomSource {
    /// A source whose draws are determined by `seed`.
    pub fn seeded(seed: u64) -> (source: Self) {
        RandomSource { generator: seeded_generator(seed) }
    }

    /// One Bernoulli trial: `true` with a chance of `numerator` in
    /// `denominator`. A chance of zero never hits and a chance of one always
    /// does.
    pub fn draw(&mut self, numerator: u32, denominator: u32) -> (hit: bool)
        requires
            0 < denominator,
            numerator <= denominator,
        ensures
            numerator == 0 ==> !hit,
            numerator == denominator ==> hit,
    {
        generate_ratio(&mut self.generator, numerator, denominator)
    }
}

/// Why no next track could be chosen.
#[derive(Clone, Copy, Debug, PartialEq, Eq, Structural)]
pub enum SelectionError {
    /// No track has a positive weight: the playlist holds nothing that the
    /// current filters let play.
    NoEligibleTracks,
    /// The weights add up to more than a draw can take.
    WeightOverflow,
}

/// The sum of the weights `weights`.
pub open spec fn total_weight(weights: Seq<u32>) -> nat
    decreases weights.len(),
{
    if weights.len() == 0 {
        0
    } else {
        total_weight(weights.drop_last()) + weights.last() as nat
    }
}

/// The sum of the first `k` weights does not exceed that of the first `n`.
pub proof fn lemma_total_weight_grows(weights: Seq<u32>, k: int, n: int)
    requires
        0 <= k <= n <= weights.len(),
    ensures
        total_weight(weights.take(k)) <= total_weight(weights.take(n)),
    decreases n - k,
{
    if k < n {
        lemma_total_weight_grows(weights, k, n - 1);
        assert(weights.take(n).drop_last() =~= weights.take(n - 1));
    }
}

/// Picks an index at random, each with a chance in proportion to its weight.
///
/// The walk goes through the weights once, from the first on: each index is
/// taken with a chance of its weight in the sum of the weights not yet passed
/// over. An index of weight 0 is never taken, and the last index of positive
/// weight is taken whenever the walk reaches it.
pub fn weighted_random_selection(
    probability_distribution: &[u32],
    random: &mut RandomSource,
) -> (chosen: Result<usize, SelectionError>)
    ensures
        total_weight(probability_distribution@) == 0 ==> chosen == Err::<usize, SelectionError>(
            SelectionError::NoEligibleTracks,
        ),
        total_weight(probability_distribution@) > u32::MAX ==> chosen == Err::<
            usize,
            SelectionError,
        >(SelectionError::WeightOverflow),
        0 < total_weight(probability_distribution@) <= u32::MAX ==> (chosen matches Ok(index)
            && index < probability_distribution@.len() && probability_distribution@[index as int]
            > 0),
{
    let len = probability_distribution.len();
    let mut sum: u64 = 0;
    let mut i: usize = 0;
    while i < len
        invariant
            i <= len == probability_distribution@.len(),
            sum == total_weight(probability_distribution@.take(i as int)),
            sum <= u32::MAX,
        decreases len - i,
    {
        assert(probability_distribution@.take(i + 1).drop_last() =~= probability_distribution@.take(i as int));
        sum = sum + probability_distribution[i] as u64;
        if sum > u32::MAX as u64 {
            proof {
                lemma_total_weight_grows(probability_distribution@, i + 1, len as int);
                assert(probability_distribution@.take(len as int) =~= probability_distribution@);
            }
            return Err(SelectionError::WeightOverflow);
        }
        i += 1;
    }
    assert(probability_distribution@.take(len as int) =~= probability_distribution@);
    if sum == 0 {
        return Err(SelectionError::NoEligibleTracks);
    }
    let mut remaining: u32 = sum as u32;
    let mut i: usize = 0;
    while i < len
        invariant
            i <= len == probability_distribution@.len(),
            remaining + total_weight(probability_distribution@.take(i as int)) == total_weight(probability_distribution@),
            0 < remaining,
            0 < total_weight(probability_distribution@) <= u32::MAX,
        decreases len - i,
    {
        let weight = probability_distribution[i];
        proof {
            assert(probability_distribution@.take(i + 1).drop_last() =~= probability_distribution@.take(i as int));
            lemma_total_weight_grows(probability_distribution@, i + 1, len as int);
            assert(probability_distribution@.take(len as int) =~= probability_distribution@);
        }
        if random.draw(weight, remaining) {
            return Ok(i);
        }
        remaining = remaining - weight;
        i += 1;
    }
    proof {
        assert(probability_distribution@.take(len as int) =~= probability_distribution@);
        assert(false);
    }
    Err(SelectionError::NoEligibleTracks)
}

/// The text `m:ss` for a span of `millis` milliseconds: whole minutes, a
/// colon, and the remaining whole seconds in two digits.
pub open spec fn clock_text(millis: u64) -> Seq<char> {
    let seconds = (millis / 1000) as nat;
    if seconds % 60 < 10 {
        decimal(seconds / 60) + seq![':', '0'] + decimal(seconds % 60)
    } else {
        decimal(seconds / 60) + seq![':'] + decimal(seconds % 60)
    }
}

/// Formats a span given in milliseconds as minutes and seconds.
pub fn format_duration(duration: u64) -> (text: String)
    ensures
        text@ == clock_text(duration),
{
    let seconds = duration / 1000;
    let mut text = String::new();
    append_decimal(&mut text, seconds / 60);
    proof {
        reveal_strlit(":0");
        reveal_strlit(":");
    }
    if seconds % 60 < 10 {
        text.append(":0");
        assert(":0"@ =~= seq![':', '0']);
    } else {
        text.append(":");
        assert(":"@ =~= seq![':']);
    }
    append_decimal(&mut text, seconds % 60);
    assert(text@ =~= clock_text(duration));
    text
}

} // verus!
