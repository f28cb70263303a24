//! Exact fixed-point arithmetic for timing and throughput.
//!
//! Rates and averages are carried in thousandths (a value of 10500 stands
//! for 10.5), so every formula is stated and proved exactly over the
//! integers; results too large for their field saturate at the maximum.

use vstd::prelude::*;

verus! {

/// Clamps a mathematical integer into the `u64` range from above.
pub open spec fn clamp_u64(x: int) -> int {
    if x > u64::MAX {
        u64::MAX as int
    } else {
        x
    }
}

/// Throughput in thousandths of a token per second: total tokens divided by
/// elapsed seconds. When the elapsed time rounds to zero milliseconds, the
/// rate falls back to the total token count itself.
pub open spec fn spec_rate_milli(total_tokens: int, elapsed_ms: int) -> int {
    if elapsed_ms == 0 {
        total_tokens * 1000
    } else {
        total_tokens * 1000000 / elapsed_ms
    }
}

/// Computes the throughput for a run that processed `total_tokens` tokens in
/// `elapsed_ms` milliseconds, saturating at `u64::MAX`.
pub fn rate_milli(total_tokens: usize, elapsed_ms: u64) -> (r: u64)
    ensures
        r == clamp_u64(spec_rate_milli(total_tokens as int, elapsed_ms as int)),
{
    if elapsed_ms == 0 {
        let wide: u128 = (total_tokens as u128) * 1000;
        if wide > (u64::MAX as u128) {
            u64::MAX
        } else {
            wide as u64
        }
    } else {
        let wide: u128 = (total_tokens as u128) * 1000000 / (elapsed_ms as u128);
        assert((total_tokens as int) * 1000000 / (elapsed_ms as int) <= (total_tokens as int)
            * 1000000) by (nonlinear_arith)
            requires
                elapsed_ms >= 1,
                total_tokens >= 0,
        ;
        if wide > (u64::MAX as u128) {
            u64::MAX
        } else {
            wide as u64
        }
    }
}

/// Law: the throughput is never negative, whatever the token count and the
/// elapsed time.
pub proof fn lemma_rate_nonnegative(total_tokens: int, elapsed_ms: int)
    requires
        total_tokens >= 0,
        elapsed_ms >= 0,
    ensures
        spec_rate_milli(total_tokens, elapsed_ms) >= 0,
        clamp_u64(spec_rate_milli(total_tokens, elapsed_ms)) >= 0,
{
    assert(total_tokens * 1000 >= 0) by (nonlinear_arith)
        requires
            total_tokens >= 0,
    ;
    assert(total_tokens * 1000000 >= 0) by (nonlinear_arith)
        requires
            total_tokens >= 0,
    ;
    if elapsed_ms != 0 {
        assert(total_tokens * 1000000 / elapsed_ms >= 0) by (nonlinear_arith)
            requires
                total_tokens * 1000000 >= 0,
                elapsed_ms > 0,
        ;
    }
}

/// Law: when the elapsed time rounds to zero, the reported rate equals the
/// total token count (in thousandths, undisturbed by saturation for any
/// count a real run can reach).
pub proof fn lemma_rate_zero_elapsed(total_tokens: int)
    requires
        0 <= total_tokens,
        total_tokens * 1000 <= u64::MAX,
    ensures
        clamp_u64(spec_rate_milli(total_tokens, 0)) == total_tokens * 1000,
{
}

/// The sum of a sequence of millisecond counts, as a mathematical integer.
pub open spec fn sum_of(s: Seq<u64>) -> int
    decreases s.len(),
{
    if s.len() == 0 {
        0
    } else {
        sum_of(s.drop_last()) + s.last()
    }
}

/// The mean of a sequence, scaled by 1000; zero for the empty sequence.
pub open spec fn spec_mean_milli(s: Seq<u64>) -> int {
    if s.len() == 0 {
        0
    } else {
        sum_of(s) * 1000 / s.len() as int
    }
}

/// Computes the scaled mean of the values, saturating at `u64::MAX`.
/// The empty sequence has mean zero.
pub fn mean_milli(values: &Vec<u64>) -> (r: u64)
    ensures
        r == clamp_u64(spec_mean_milli(values@)),
{
    if values.len() == 0 {
        return 0u64;
    }
    let mut sum: u128 = 0;
    let mut i: usize = 0;
    proof {
        assert(values@.take(0) =~= Seq::<u64>::empty());
    }
    while i < values.len()
        invariant
            0 <= i <= values@.len(),
            sum == sum_of(values@.take(i as int)),
            sum <= (i as int) * (u64::MAX as int),
        decreases values@.len() - i,
    {
        proof {
            assert(values@.take(i + 1).drop_last() =~= values@.take(i as int));
            assert(values@.take(i + 1).last() == values@[i as int]);
            assert((i as int) * (u64::MAX as int) + (u64::MAX as int) == (i + 1) * (
            u64::MAX as int)) by (nonlinear_arith);
            assert((i + 1) * (u64::MAX as int) < u128::MAX) by (nonlinear_arith)
                requires
                    i + 1 <= usize::MAX,
            ;
        }
        sum = sum + (values[i] as u128);
        i = i + 1;
    }
    proof {
        assert(values@.take(values@.len() as int) =~= values@);
    }
    // (sum * 1000) / n computed without overflowing: divide first, then
    // scale quotient and remainder separately.
    let n: u128 = values.len() as u128;
    let q: u128 = sum / n;
    let rem: u128 = sum % n;
    proof {
        lemma_scaled_division(sum as int, n as int);
        assert((q as int) <= u64::MAX) by (nonlinear_arith)
            requires
                1 <= (n as int),
                0 <= (sum as int),
                (sum as int) <= (n as int) * (u64::MAX as int),
                (q as int) == (sum as int) / (n as int),
        ;
        assert((rem as int) < (n as int));
        assert((rem as int) * 1000 / (n as int) < 1000) by (nonlinear_arith)
            requires
                1 <= (n as int),
                0 <= (rem as int) && (rem as int) < (n as int),
        ;
        assert((rem as int) * 1000 >= 0 && (rem as int) * 1000 <= (u64::MAX as int) * 1000) by (
        nonlinear_arith)
            requires
                0 <= (rem as int) && (rem as int) <= (u64::MAX as int),
        ;
        assert((rem as int) * 1000 / (n as int) >= 0) by (nonlinear_arith)
            requires
                1 <= (n as int),
                0 <= (rem as int) * 1000,
        ;
    }
    let scaled: u128 = q * 1000 + (rem * 1000) / n;
    if scaled > (u64::MAX as u128) {
        u64::MAX
    } else {
        scaled as u64
    }
}

/// For a nonnegative dividend, scaling by 1000 before dividing equals
/// scaling the quotient and the scaled remainder's quotient separately.
proof fn lemma_scaled_division(sum: int, n: int)
    requires
        sum >= 0,
        n >= 1,
    ensures
        sum * 1000 / n == (sum / n) * 1000 + (sum % n) * 1000 / n,
{
    let q = sum / n;
    let r = sum % n;
    assert(sum == q * n + r && 0 <= r < n) by (nonlinear_arith)
        requires
            n >= 1,
            sum >= 0,
            q == sum / n,
            r == sum % n,
    ;
    assert(sum * 1000 == (q * 1000) * n + r * 1000) by (nonlinear_arith)
        requires
            sum == q * n + r,
    ;
    assert(((q * 1000) * n + r * 1000) / n == q * 1000 + r * 1000 / n) by (nonlinear_arith)
        requires
            n >= 1,
            r >= 0,
    ;
}

/// The fraction of matches among the observations, in thousandths; absent
/// when there were no observations at all, never zero by default.
pub open spec fn spec_match_rate_milli(matches: int, observations: int) -> Option<int> {
    if observations == 0 {
        None
    } else {
        Some(matches * 1000 / observations)
    }
}

/// Computes the reference-match rate over `observations` checked samples of
/// which `matches` matched. No observations yields no rate, not a zero one.
pub fn match_rate_milli(matches: usize, observations: usize) -> (r: Option<u64>)
    requires
        matches <= observations,
    ensures
        r matches Some(v) ==> observations > 0 && spec_match_rate_milli(
            matches as int,
            observations as int,
        ) == Some(v as int),
        r is None <==> observations == 0,
{
    if observations == 0 {
        None
    } else {
        let wide: u128 = (matches as u128) * 1000 / (observations as u128);
        proof {
            assert((matches as int) * 1000 / (observations as int) <= 1000) by (nonlinear_arith)
                requires
                    0 < observations,
                    0 <= matches <= observations,
            ;
            assert((matches as int) * 1000 >= 0) by (nonlinear_arith)
                requires
                    matches >= 0,
            ;
            assert((matches as int) * 1000 / (observations as int) >= 0) by (nonlinear_arith)
                requires
                    (matches as int) * 1000 >= 0,
                    observations > 0,
            ;
        }
        Some(wide as u64)
    }
}

} // verus!
