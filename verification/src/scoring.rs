//! The scoring engine: pure integer arithmetic over caller-supplied
//! telemetry.
//!
//! Counts and latencies arrive as `u64` values, which comfortably covers any
//! realistic match count or millisecond reading; intermediate products are
//! computed in `u128`, so the multiplication by 100 can never overflow and
//! the engine never panics. Inputs are deliberately not validated beyond the
//! zero-denominator guard: a caller that reports more correct guesses than
//! matches gets a ratio above 100, exactly as the arithmetic dictates.

use vstd::prelude::*;
use vstd::arithmetic::div_mod::{lemma_div_is_ordered, lemma_div_is_ordered_by_denominator};
use vstd::arithmetic::mul::lemma_mul_inequality;

verus! {

/// Guess accuracy must strictly exceed this percentage: humans are better
/// than chance at spotting bots.
pub const ACCURACY_FLOOR_PERCENT: u64 = 60;

/// Mean response times at or below this many milliseconds suggest a scripted
/// player rather than a human.
pub const MIN_HUMAN_LATENCY_MS: u64 = 500;

/// Mean response times at or above this many milliseconds (four minutes)
/// suggest the player abandoned the match.
pub const MAX_HUMAN_LATENCY_MS: u64 = 240_000;

/// The percentage of correct guesses, rounded down. Meaningful only for
/// `total > 0`; callers guard the zero case themselves.
pub open spec fn accuracy_percent(correct: int, total: int) -> int
    recommends
        total > 0,
{
    (correct * 100) / total
}

/// The humanity decision: there is evidence of play at all, the accuracy
/// strictly clears the floor, and the mean latency lies strictly between the
/// scripted-player floor and the abandonment ceiling.
pub open spec fn humanity_verdict(correct: int, total: int, avg_ms: int) -> bool {
    &&& total > 0
    &&& accuracy_percent(correct, total) > ACCURACY_FLOOR_PERCENT
    &&& avg_ms > MIN_HUMAN_LATENCY_MS
    &&& avg_ms < MAX_HUMAN_LATENCY_MS
}

/// The percentage of interactions in which the agent fooled a human, rounded
/// down; zero recorded interactions rate as zero.
pub open spec fn deception_percent(fooled: int, total: int) -> int {
    if total == 0 {
        0
    } else {
        (fooled * 100) / total
    }
}

/// The stateless scoring engine. It holds nothing: every call is a pure
/// function of its arguments alone.
pub struct DetectiveStylusVerifier {}

impl DetectiveStylusVerifier {
    /// Decides whether the reported performance pattern meets the humanity
    /// threshold. With `total_matches == 0` there is no evidence of human
    /// behaviour and the verdict is `false`, whatever the other arguments
    /// say; division by zero never executes.
    pub fn verify_humanity_score(
        &self,
        correct_guesses: u64,
        total_matches: u64,
        avg_response_time_ms: u64,
    ) -> (human: bool)
        ensures
            human == humanity_verdict(
                correct_guesses as int,
                total_matches as int,
                avg_response_time_ms as int,
            ),
    {
        if total_matches == 0 {
            return false;
        }

        let accuracy: u128 = (correct_guesses as u128) * 100 / (total_matches as u128);

        accuracy > (ACCURACY_FLOOR_PERCENT as u128)
            && avg_response_time_ms > MIN_HUMAN_LATENCY_MS
            && avg_response_time_ms < MAX_HUMAN_LATENCY_MS
    }

    /// Rates how often the agent fooled a human, as a truncated integer
    /// percentage. Zero recorded interactions rate as zero; division by zero
    /// never executes. When `times_fooled_human` exceeds `total_interactions`
    /// the rating exceeds 100 — the permissive behaviour is kept on purpose
    /// and stated by the contract, which is why the result is a `u128`: the
    /// quotient can reach one hundred times a `u64` count.
    pub fn calculate_deception_rating(
        &self,
        times_fooled_human: u64,
        total_interactions: u64,
    ) -> (rating: u128)
        ensures
            rating == deception_percent(times_fooled_human as int, total_interactions as int),
    {
        if total_interactions == 0 {
            return 0;
        }
        (times_fooled_human as u128) * 100 / (total_interactions as u128)
    }
}

/// Law: with no recorded matches there is no evidence of human play, so the
/// humanity verdict is negative regardless of the accuracy and latency
/// arguments.
pub proof fn lemma_no_matches_never_human(correct: int, avg_ms: int)
    ensures
        !humanity_verdict(correct, 0, avg_ms),
{
}

/// Law: with no recorded interactions the deception rating is zero,
/// regardless of the fooled count.
pub proof fn lemma_no_interactions_zero_rating(fooled: int)
    ensures
        deception_percent(fooled, 0) == 0,
{
}

/// Law: holding the interaction count fixed, the deception rating is
/// monotonically non-decreasing in the fooled count.
pub proof fn lemma_deception_rating_monotonic_in_fooled(fooled1: int, fooled2: int, total: int)
    requires
        0 <= fooled1 <= fooled2 <= total,
        0 < total,
    ensures
        deception_percent(fooled1, total) <= deception_percent(fooled2, total),
{
    lemma_mul_inequality(fooled1, fooled2, 100);
    lemma_div_is_ordered(fooled1 * 100, fooled2 * 100, total);
}

/// Law: holding the fooled count fixed, the deception rating is
/// monotonically non-increasing in the interaction count.
pub proof fn lemma_deception_rating_antitone_in_total(fooled: int, total1: int, total2: int)
    requires
        0 <= fooled <= total1,
        0 < total1 <= total2,
    ensures
        deception_percent(fooled, total2) <= deception_percent(fooled, total1),
{
    lemma_div_is_ordered_by_denominator(fooled * 100, total1, total2);
}

} // verus!
