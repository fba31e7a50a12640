//! From keystroke statistics to an observation symbol: the stuck score, its
//! smoothing, the backspace streak and the discretization.
use vstd::prelude::*;

use crate::model::{CORRECTION_SYMBOL, PROB_SCALE};

verus! {

/// Feature values are fixed-point numbers in thousandths of their unit.
pub const FEATURE_SCALE: u64 = 1000;

/// Largest threshold that `phi` accepts.
pub const MAX_BETA: u64 = 0xFFFF_FFFF;

/// Reference flight-time median: 250 ms.
pub const BETA_FLIGHT_MEDIAN: u64 = 250_000;

/// Reference flight-time variance: 2000 ms².
pub const BETA_FLIGHT_VARIANCE: u64 = 2_000_000;

/// Reference correction rate: 10 %.
pub const BETA_CORRECTION_RATE: u64 = 100;

/// Reference burst length: 2 characters.
pub const BETA_BURST_LENGTH: u64 = 2_000;

/// Reference pause count: 3 pauses.
pub const BETA_PAUSE_COUNT: u64 = 3_000;

/// Reference rate of pauses after a deletion: 15 %.
pub const BETA_PAUSE_AFTER_DELETE: u64 = 150;

/// Virtual key code of the backspace key.
pub const BACKSPACE_KEY: u32 = 0x08;

/// Length of a backspace run from which the correction symbol is forced.
pub const STREAK_THRESHOLD: u32 = 5;

/// Width of one score bin: a tenth of the score range.
pub const BIN_WIDTH: u64 = 100_000_000;

/// Keystroke statistics for one event, each in thousandths of its unit
/// (milliseconds, ms², ratios, characters, counts).
#[derive(Clone, Copy, Debug, PartialEq, Eq, Structural)]
pub struct Features {
    pub f1_flight_time_median: u64,
    pub f2_flight_time_variance: u64,
    pub f3_correction_rate: u64,
    pub f4_burst_length: u64,
    pub f5_pause_count: u64,
    pub f6_pause_after_del_rate: u64,
}

/// Saturating response `v² / (v² + β²)` in parts per billion: 0 at `v == 0`,
/// one half at `v == β`, rising towards one as `v` grows.
pub open spec fn phi_spec(value: int, beta: int) -> int {
    PROB_SCALE - PROB_SCALE * (beta * beta) / (value * value + beta * beta)
}

/// The stuck score: a weighted sum (weights 30, 10, 15, 15, 15, 15 percent) of the
/// responses of the six features, with burst length counting inversely.
pub open spec fn stuck_score_spec(f: Features) -> int {
    (30 * phi_spec(f.f1_flight_time_median as int, BETA_FLIGHT_MEDIAN as int) + 10 * phi_spec(
        f.f2_flight_time_variance as int,
        BETA_FLIGHT_VARIANCE as int,
    ) + 15 * phi_spec(f.f3_correction_rate as int, BETA_CORRECTION_RATE as int) + 15 * phi_spec(
        f.f6_pause_after_del_rate as int,
        BETA_PAUSE_AFTER_DELETE as int,
    ) + 15 * (PROB_SCALE - phi_spec(f.f4_burst_length as int, BETA_BURST_LENGTH as int)) + 15
        * phi_spec(f.f5_pause_count as int, BETA_PAUSE_COUNT as int)) / 100
}

/// Exponential smoothing, 30 % new and 70 % old, rounded to the nearest part.
pub open spec fn smooth_spec(prev: int, raw: int) -> int {
    (3 * raw + 7 * prev + 5) / 10
}

/// The observation symbol: the score's tenth, or the correction symbol on a long
/// backspace run.
pub open spec fn observation_spec(smoothed: int, streak: int) -> int {
    if streak >= STREAK_THRESHOLD {
        CORRECTION_SYMBOL as int
    } else if smoothed / (BIN_WIDTH as int) >= 10 {
        10
    } else {
        smoothed / (BIN_WIDTH as int)
    }
}

/// The backspace streak after a key event: one more on backspace, zero on any
/// other key, unchanged when no key is known.
pub open spec fn next_streak_spec(streak: u32, vk_code: Option<u32>) -> u32 {
    match vk_code {
        Some(k) => if k == BACKSPACE_KEY {
            streak.saturating_add(1)
        } else {
            0
        },
        None => streak,
    }
}

proof fn lemma_phi_bounds(value: int, beta: int)
    requires
        value >= 0,
        beta > 0,
    ensures
        0 <= PROB_SCALE * (beta * beta) / (value * value + beta * beta) <= PROB_SCALE,
        0 <= phi_spec(value, beta) <= PROB_SCALE,
{
    let b2 = beta * beta;
    let d = value * value + b2;
    assert(b2 > 0 && d >= b2) by (nonlinear_arith)
        requires
            beta > 0,
            b2 == beta * beta,
            d == value * value + b2,
    ;
    vstd::arithmetic::div_mod::lemma_div_is_ordered_by_denominator(PROB_SCALE * b2, b2, d);
    vstd::arithmetic::div_mod::lemma_div_multiples_vanish(PROB_SCALE as int, b2);
    assert(PROB_SCALE * b2 == b2 * PROB_SCALE) by (nonlinear_arith);
}

/// The response is bounded by zero and one, is exactly one half at the threshold,
/// and never decreases as the value grows.
pub proof fn lemma_phi_response(v1: int, v2: int, beta: int)
    requires
        0 <= v1 <= v2,
        beta > 0,
    ensures
        0 <= phi_spec(v1, beta) <= PROB_SCALE,
        phi_spec(beta, beta) == PROB_SCALE / 2,
        phi_spec(v1, beta) <= phi_spec(v2, beta),
{
    lemma_phi_bounds(v1, beta);
    let b2 = beta * beta;
    assert(b2 > 0 && v1 * v1 <= v2 * v2) by (nonlinear_arith)
        requires
            0 <= v1 <= v2,
            beta > 0,
            b2 == beta * beta,
    ;
    assert(PROB_SCALE * b2 >= 0) by (nonlinear_arith)
        requires
            b2 > 0,
    ;
    vstd::arithmetic::div_mod::lemma_div_is_ordered_by_denominator(
        PROB_SCALE * b2,
        v1 * v1 + b2,
        v2 * v2 + b2,
    );
    assert(PROB_SCALE * b2 == (b2 + b2) * (PROB_SCALE / 2)) by (nonlinear_arith)
        requires
            b2 > 0,
    ;
    vstd::arithmetic::div_mod::lemma_div_multiples_vanish((PROB_SCALE / 2) as int, b2 + b2);
    assert((b2 + b2) * (PROB_SCALE / 2) == (PROB_SCALE / 2) * (b2 + b2)) by (nonlinear_arith);
}

/// The stuck score always lies in [0, 1].
pub proof fn lemma_stuck_score_bounds(f: Features)
    ensures
        0 <= stuck_score_spec(f) <= PROB_SCALE,
{
    lemma_phi_bounds(f.f1_flight_time_median as int, BETA_FLIGHT_MEDIAN as int);
    lemma_phi_bounds(f.f2_flight_time_variance as int, BETA_FLIGHT_VARIANCE as int);
    lemma_phi_bounds(f.f3_correction_rate as int, BETA_CORRECTION_RATE as int);
    lemma_phi_bounds(f.f4_burst_length as int, BETA_BURST_LENGTH as int);
    lemma_phi_bounds(f.f5_pause_count as int, BETA_PAUSE_COUNT as int);
    lemma_phi_bounds(f.f6_pause_after_del_rate as int, BETA_PAUSE_AFTER_DELETE as int);
}

/// The response of one feature `value` to its threshold `beta`.
pub fn phi(value: u64, beta: u64) -> (r: u64)
    requires
        0 < beta <= MAX_BETA,
    ensures
        r as int == phi_spec(value as int, beta as int),
        r <= PROB_SCALE,
{
    proof {
        lemma_phi_bounds(value as int, beta as int);
        assert((value as int) * (value as int) <= 0xFFFF_FFFF_FFFF_FFFF * 0xFFFF_FFFF_FFFF_FFFFint)
            by (nonlinear_arith)
            requires
                0 <= value <= 0xFFFF_FFFF_FFFF_FFFFint,
        ;
        assert(0 < (beta as int) * (beta as int) <= 0xFFFF_FFFF * 0xFFFF_FFFFint)
            by (nonlinear_arith)
            requires
                0 < beta <= 0xFFFF_FFFFint,
        ;
    }
    let v2 = (value as u128) * (value as u128);
    let b2 = (beta as u128) * (beta as u128);
    let cut = (PROB_SCALE as u128) * b2 / (v2 + b2);
    PROB_SCALE - cut as u64
}

/// Aggregates the six features into the stuck score, in parts per billion.
pub fn stuck_score(features: &Features) -> (r: u64)
    ensures
        r as int == stuck_score_spec(*features),
        r <= PROB_SCALE,
{
    let phi1 = phi(features.f1_flight_time_median, BETA_FLIGHT_MEDIAN);
    let phi2 = phi(features.f2_flight_time_variance, BETA_FLIGHT_VARIANCE);
    let phi3 = phi(features.f3_correction_rate, BETA_CORRECTION_RATE);
    let phi4_inv = PROB_SCALE - phi(features.f4_burst_length, BETA_BURST_LENGTH);
    let phi5 = phi(features.f5_pause_count, BETA_PAUSE_COUNT);
    let phi6 = phi(features.f6_pause_after_del_rate, BETA_PAUSE_AFTER_DELETE);
    (30 * phi1 + 10 * phi2 + 15 * phi3 + 15 * phi6 + 15 * phi4_inv + 15 * phi5) / 100
}

/// One smoothing step from the previous value `prev` with the new score `raw`.
pub fn smooth(prev: u64, raw: u64) -> (r: u64)
    requires
        prev <= PROB_SCALE,
        raw <= PROB_SCALE,
    ensures
        r as int == smooth_spec(prev as int, raw as int),
        r <= PROB_SCALE,
{
    (3 * raw + 7 * prev + 5) / 10
}

/// The observation symbol for a smoothed score and a backspace streak.
pub fn observation_symbol(smoothed: u64, streak: u32) -> (r: usize)
    ensures
        r as int == observation_spec(smoothed as int, streak as int),
        r <= CORRECTION_SYMBOL,
{
    if streak >= STREAK_THRESHOLD {
        CORRECTION_SYMBOL
    } else {
        let bin = smoothed / BIN_WIDTH;
        if bin >= 10 {
            10
        } else {
            bin as usize
        }
    }
}

/// Tracks the backspace streak across one key event.
pub fn next_streak(streak: u32, vk_code: Option<u32>) -> (r: u32)
    ensures
        r == next_streak_spec(streak, vk_code),
{
    match vk_code {
        Some(k) => if k == BACKSPACE_KEY {
            streak.saturating_add(1)
        } else {
            0
        },
        None => streak,
    }
}

} // verus!
