//! The exposure controller's exact part: the scene's EV100 from the two
//! percentile positions of the luminance histogram.
//!
//! The histogram's bins are spaced evenly in log luminance: the average of
//! the two percentile positions maps to `bin_avg / 4.6 - 10` stops. With
//! `avg_luma = 2^(that)`, `ev100 = log2(avg_luma * 100 / 12.5) + bias`,
//! which is exactly `bin_avg * 5 / 23 - 7 + bias` stops. The exposure is
//! then `1 / (1.2 * 2^ev100)`.
use vstd::prelude::*;
use crate::histogram::BinPosition;

verus! {

/// An exact fraction `numer / denom`, with `denom > 0`.
#[derive(Clone, Copy, Debug, PartialEq, Eq, Structural)]
pub struct Ratio {
    pub numer: i128,
    pub denom: i128,
}

/// Numerator of the scene EV100 (before the bias) over `ev100_denom`:
/// `((low + high) / 2) * 5 / 23 - 7`.
pub open spec fn ev100_numer(low: BinPosition, high: BinPosition) -> int {
    5 * (low.numer() * high.span + high.numer() * low.span) - 322 * (low.span * high.span)
}

/// Denominator of the scene EV100.
pub open spec fn ev100_denom(low: BinPosition, high: BinPosition) -> int {
    46 * (low.span * high.span)
}

/// The scene EV100 before the exposure bias, exactly.
pub fn scene_ev100(low: &BinPosition, high: &BinPosition) -> (r: Ratio)
    requires
        low.in_histogram(),
        high.in_histogram(),
    ensures
        r.numer == ev100_numer(*low, *high),
        r.denom == ev100_denom(*low, *high),
        r.denom > 0,
{
    let ghost max_span: int = 100 * 0xffff_ffffint;
    proof {
        assert(low.numer() <= 128 * low.span) by (nonlinear_arith)
            requires
                low.bin < 128,
                low.overshoot <= low.span,
        ;
        assert(high.numer() <= 128 * high.span) by (nonlinear_arith)
            requires
                high.bin < 128,
                high.overshoot <= high.span,
        ;
        assert(0 <= low.numer() && 0 <= high.numer()) by (nonlinear_arith)
            requires
                low.bin >= 0,
                high.bin >= 0,
        ;
        assert(low.span * high.span <= max_span * max_span) by (nonlinear_arith)
            requires
                0 < low.span <= max_span,
                0 < high.span <= max_span,
        ;
        assert(low.span * high.span > 0) by (nonlinear_arith)
            requires
                0 < low.span,
                0 < high.span,
        ;
        assert(low.numer() * high.span <= 128 * (max_span * max_span)) by (nonlinear_arith)
            requires
                0 <= low.numer() <= 128 * low.span,
                0 < low.span <= max_span,
                0 < high.span <= max_span,
        ;
        assert(high.numer() * low.span <= 128 * (max_span * max_span)) by (nonlinear_arith)
            requires
                0 <= high.numer() <= 128 * high.span,
                0 < low.span <= max_span,
                0 < high.span <= max_span,
        ;
        assert(0 <= low.numer() * high.span) by (nonlinear_arith)
            requires
                0 <= low.numer(),
                0 < high.span,
        ;
        assert(0 <= high.numer() * low.span) by (nonlinear_arith)
            requires
                0 <= high.numer(),
                0 < low.span,
        ;
    }
    let ls: i128 = low.span as i128;
    let hs: i128 = high.span as i128;
    let ln: i128 = (low.bin as i128) * ls + (low.overshoot as i128);
    let hn: i128 = (high.bin as i128) * hs + (high.overshoot as i128);
    let spans: i128 = ls * hs;
    let numer: i128 = 5 * (ln * hs + hn * ls) - 322 * spans;
    Ratio { numer, denom: 46 * spans }
}

/// For any two positions in the histogram the scene EV100 before the bias
/// lies between -7 and 479/23 (about 20.8) stops, so the exposure
/// `1 / (1.2 * 2^(ev100 + bias))` is a positive, finite number for any
/// bounded bias.
pub proof fn lemma_ev100_bounded(low: BinPosition, high: BinPosition)
    requires
        low.in_histogram(),
        high.in_histogram(),
    ensures
        ev100_denom(low, high) > 0,
        -7 * ev100_denom(low, high) <= ev100_numer(low, high),
        23 * ev100_numer(low, high) <= 479 * ev100_denom(low, high),
{
    let s = low.span * high.span;
    assert(s > 0) by (nonlinear_arith)
        requires
            s == low.span * high.span,
            0 < low.span,
            0 < high.span,
    ;
    assert(0 <= low.numer() * high.span <= 128 * s) by (nonlinear_arith)
        requires
            low.numer() == low.bin * low.span + low.overshoot,
            0 <= low.bin < 128,
            0 <= low.overshoot <= low.span,
            0 < high.span,
            s == low.span * high.span,
    ;
    assert(0 <= high.numer() * low.span <= 128 * s) by (nonlinear_arith)
        requires
            high.numer() == high.bin * high.span + high.overshoot,
            0 <= high.bin < 128,
            0 <= high.overshoot <= high.span,
            0 < low.span,
            s == low.span * high.span,
    ;
}

} // verus!
