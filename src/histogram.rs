//! Luminance histogram analysis: where the low and high percentiles of a
//! binned luminance distribution fall, as fractional bin positions.
use vstd::prelude::*;

verus! {

/// Number of luminance buckets the histogram compute pass fills.
pub const HISTOGRAM_BINS: usize = 128;

/// Side length of the square analysis buffer whose pixels are binned.
pub const ANALYSIS_SIZE: u32 = 512;

/// Pixels in the analysis buffer: the population the percentiles refer to.
pub const ANALYSIS_PIXELS: u32 = ANALYSIS_SIZE * ANALYSIS_SIZE;

/// Percent of the population below the low percentile position.
pub const LOW_PERCENT: u64 = 60;

/// Percent of the population below the high percentile position.
pub const HIGH_PERCENT: u64 = 90;

/// Sum of the first `k` bins.
pub open spec fn cumulative(bins: Seq<u32>, k: int) -> int
    decreases k,
{
    if k <= 0 {
        0
    } else {
        cumulative(bins, k - 1) + bins[k - 1] as int
    }
}

/// Bins `0..=k` together hold at least `percent` percent of `total`.
pub open spec fn reaches(bins: Seq<u32>, k: int, total: int, percent: int) -> bool {
    100 * cumulative(bins, k + 1) >= percent * total
}

/// `k` is the first bin whose running total reaches `percent` percent of `total`.
pub open spec fn first_reaching(bins: Seq<u32>, k: int, total: int, percent: int) -> bool {
    &&& 0 <= k < bins.len()
    &&& reaches(bins, k, total, percent)
    &&& forall|j: int| 0 <= j < k ==> !reaches(bins, j, total, percent)
}

/// A fractional bin index: `bin + overshoot / span`.
///
/// `span` is a hundred times the count of `bin`, and `overshoot` is how far
/// (in the same hundredths) the threshold lies past the start of that bin.
#[derive(Clone, Copy, Debug, PartialEq, Eq, Structural)]
pub struct BinPosition {
    pub bin: usize,
    pub overshoot: u64,
    pub span: u64,
}

impl BinPosition {
    /// A well-formed position lies inside its bin and never divides by zero.
    pub open spec fn wf(self) -> bool {
        0 < self.span && self.overshoot <= self.span
    }

    /// A well-formed position inside a histogram of `HISTOGRAM_BINS` bins of
    /// `u32` counts.
    pub open spec fn in_histogram(self) -> bool {
        self.wf() && self.bin < HISTOGRAM_BINS && self.span <= 100 * 0xffff_ffffu64
    }

    /// Numerator of the position over the denominator `span`.
    pub open spec fn numer(self) -> int {
        self.bin as int * self.span as int + self.overshoot as int
    }

    /// The position of `self` is at most that of `other`, as rationals.
    pub open spec fn le(self, other: BinPosition) -> bool {
        self.numer() * other.span as int <= other.numer() * self.span as int
    }

    /// The start of bin `bin`.
    pub open spec fn at_bin_spec(bin: usize) -> BinPosition {
        BinPosition { bin, overshoot: 0, span: 1 }
    }

    /// The start of bin `bin`.
    pub fn at_bin(bin: usize) -> (r: BinPosition)
        ensures
            r.wf(),
            r == BinPosition::at_bin_spec(bin),
    {
        BinPosition { bin, overshoot: 0, span: 1 }
    }
}

/// The bin that `first_reaching` singles out, where there is one.
pub open spec fn first_reaching_index(bins: Seq<u32>, total: int, percent: int) -> int {
    choose|k: int| first_reaching(bins, k, total, percent)
}

/// The position that `percentile_position` computes, stated directly: the
/// first bin reaching the threshold, and how deep into it the threshold lies.
pub open spec fn percentile_of(bins: Seq<u32>, total: int, percent: int) -> Option<BinPosition> {
    if total > 0 && 100 * cumulative(bins, bins.len() as int) >= percent * total {
        let k = first_reaching_index(bins, total, percent);
        Some(
            BinPosition {
                bin: k as usize,
                overshoot: (percent * total - 100 * cumulative(bins, k)) as u64,
                span: (100 * bins[k]) as u64,
            },
        )
    } else {
        None
    }
}

proof fn lemma_cumulative_monotone(bins: Seq<u32>, a: int, b: int)
    requires
        0 <= a <= b <= bins.len(),
    ensures
        cumulative(bins, a) <= cumulative(bins, b),
    decreases b - a,
{
    if a < b {
        lemma_cumulative_monotone(bins, a, b - 1);
    }
}

proof fn lemma_first_reaching_unique(bins: Seq<u32>, k1: int, k2: int, total: int, percent: int)
    requires
        first_reaching(bins, k1, total, percent),
        first_reaching(bins, k2, total, percent),
    ensures
        k1 == k2,
{
    if k1 < k2 {
        assert(!reaches(bins, k1, total, percent));
    } else if k2 < k1 {
        assert(!reaches(bins, k2, total, percent));
    }
}

/// Where `percent` percent of `total` falls in `bins`, as a fractional bin index.
///
/// Walks the bins in order, keeping a running total; the first bin whose
/// running total reaches the threshold gives the position. `None` when the
/// population is empty or the bins never reach the threshold.
pub fn percentile_position(bins: &[u32], total: u32, percent: u64) -> (r: Option<BinPosition>)
    requires
        0 < percent <= 100,
    ensures
        r == percentile_of(bins@, total as int, percent as int),
        r matches Some(p) ==> p.wf() && p.span <= 100 * 0xffff_ffffu64 && first_reaching(
            bins@,
            p.bin as int,
            total as int,
            percent as int,
        ),
{
    if total == 0 {
        return None;
    }
    proof {
        assert(0 < percent * total <= 100 * 0xffff_ffff) by (nonlinear_arith)
            requires
                0 < percent <= 100,
                0 < total <= 0xffff_ffff,
        ;
    }
    let threshold: u64 = percent * (total as u64);
    let mut counted: u64 = 0;
    let mut i: usize = 0;
    while i < bins.len()
        invariant
            0 <= i <= bins@.len(),
            0 < percent <= 100,
            0 < total,
            threshold == percent * total,
            threshold <= 100 * 0xffff_ffff,
            counted == cumulative(bins@, i as int),
            100 * counted < threshold,
            forall|j: int| 0 <= j < i ==> !reaches(bins@, j, total as int, percent as int),
        decreases bins@.len() - i,
    {
        let b: u64 = bins[i] as u64;
        let next: u64 = counted + b;
        if 100 * next >= threshold {
            let bin_begin: u64 = 100 * counted;
            let p = BinPosition { bin: i, overshoot: threshold - bin_begin, span: 100 * b };
            proof {
                assert(first_reaching(bins@, i as int, total as int, percent as int));
                lemma_cumulative_monotone(bins@, i as int + 1, bins@.len() as int);
                lemma_percentile_facts(bins@, total, percent);
                let k = first_reaching_index(bins@, total as int, percent as int);
                lemma_first_reaching_unique(bins@, k, i as int, total as int, percent as int);
            }
            return Some(p);
        }
        counted = next;
        i = i + 1;
    }
    proof {
        if bins@.len() > 0 {
            assert(!reaches(bins@, bins@.len() - 1, total as int, percent as int));
        }
    }
    None
}

proof fn lemma_first_reaching_exists(bins: Seq<u32>, k: int, total: int, percent: int)
    requires
        0 <= k < bins.len(),
        reaches(bins, k, total, percent),
    ensures
        first_reaching(bins, first_reaching_index(bins, total, percent), total, percent),
    decreases k,
{
    if exists|j: int| 0 <= j < k && reaches(bins, j, total, percent) {
        let j = choose|j: int| 0 <= j < k && reaches(bins, j, total, percent);
        lemma_first_reaching_exists(bins, j, total, percent);
    } else {
        assert(first_reaching(bins, k, total, percent));
    }
}

/// What `percentile_of` gives when the threshold is reached, without the casts.
proof fn lemma_percentile_facts(bins: Seq<u32>, total: u32, percent: u64)
    requires
        0 < percent <= 100,
        0 < total,
        bins.len() <= usize::MAX,
        100 * cumulative(bins, bins.len() as int) >= percent * total,
    ensures
        percentile_of(bins, total as int, percent as int) matches Some(p) && {
            &&& first_reaching(bins, p.bin as int, total as int, percent as int)
            &&& p.bin == first_reaching_index(bins, total as int, percent as int)
            &&& p.overshoot as int == percent * total - 100 * cumulative(bins, p.bin as int)
            &&& p.span as int == 100 * bins[p.bin as int]
            &&& p.wf()
        },
{
    assert(bins.len() > 0) by {
        assert(percent * total > 0) by (nonlinear_arith)
            requires
                percent > 0,
                total > 0,
        ;
    }
    assert(reaches(bins, bins.len() - 1, total as int, percent as int));
    lemma_first_reaching_exists(bins, bins.len() - 1, total as int, percent as int);
    let k = first_reaching_index(bins, total as int, percent as int);
    assert(percent * total <= 100 * 0xffff_ffff) by (nonlinear_arith)
        requires
            percent <= 100,
            total <= 0xffff_ffff,
    ;
    if k > 0 {
        assert(!reaches(bins, k - 1, total as int, percent as int));
    }
    assert(cumulative(bins, k) >= 0) by {
        lemma_cumulative_monotone(bins, 0, k);
    }
    assert(cumulative(bins, k + 1) == cumulative(bins, k) + bins[k]);
    assert((percent as int) * (total as int) > 0) by (nonlinear_arith)
        requires
            percent > 0,
            total > 0,
    ;
    assert(0 < (percent as int) * (total as int) - 100 * cumulative(bins, k) <= 100 * bins[k]);
    assert(total as int > 0);
    assert(100 * cumulative(bins, bins.len() as int) >= (percent as int) * (total as int));
    let expected = percentile_of(bins, total as int, percent as int);
    assert(expected is Some);
    assert(expected->Some_0.bin as int == k);
}

/// Raising the percentile never moves its position down: for `lower <= upper`,
/// wherever the `upper` threshold is reached the `lower` threshold is reached too,
/// at a position no greater than that of `upper`.
pub proof fn lemma_percentile_monotone(bins: Seq<u32>, total: u32, lower: u64, upper: u64)
    requires
        0 < lower <= upper <= 100,
        bins.len() <= usize::MAX,
        percentile_of(bins, total as int, upper as int) is Some,
    ensures
        percentile_of(bins, total as int, lower as int) matches Some(a) && a.le(
            percentile_of(bins, total as int, upper as int)->Some_0,
        ),
{
    assert(lower * total <= upper * total) by (nonlinear_arith)
        requires
            lower <= upper,
            0 <= total,
    ;
    lemma_percentile_facts(bins, total, upper);
    lemma_percentile_facts(bins, total, lower);
    let a = percentile_of(bins, total as int, lower as int)->Some_0;
    let b = percentile_of(bins, total as int, upper as int)->Some_0;
    let k1 = a.bin as int;
    let k2 = b.bin as int;
    assert(reaches(bins, k2, total as int, lower as int));
    assert(k1 <= k2);
    let sa = a.span as int;
    let sb = b.span as int;
    let oa = a.overshoot as int;
    let ob = b.overshoot as int;
    if k1 < k2 {
        assert(a.numer() * sb <= b.numer() * sa) by (nonlinear_arith)
            requires
                a.numer() == k1 * sa + oa,
                b.numer() == k2 * sb + ob,
                0 <= oa <= sa,
                0 <= ob,
                0 < sb,
                0 < sa,
                k1 + 1 <= k2,
        ;
    } else {
        assert(a.numer() * sb <= b.numer() * sa) by (nonlinear_arith)
            requires
                a.numer() == k1 * sa + oa,
                b.numer() == k1 * sb + ob,
                sa == sb,
                oa <= ob,
                0 < sa,
        ;
    }
}

/// For a histogram whose bins add up to a non-empty population, both
/// percentile positions exist and the low one never exceeds the high one.
pub proof fn lemma_low_not_above_high(bins: Seq<u32>, total: u32)
    requires
        0 < total,
        bins.len() <= usize::MAX,
        cumulative(bins, bins.len() as int) == total,
    ensures
        percentile_of(bins, total as int, LOW_PERCENT as int) matches Some(low)
            && percentile_of(bins, total as int, HIGH_PERCENT as int) matches Some(high) && low.le(high),
{
    lemma_percentile_facts(bins, total, HIGH_PERCENT);
    lemma_percentile_monotone(bins, total, LOW_PERCENT, HIGH_PERCENT);
}

proof fn lemma_cumulative_uniform(bins: Seq<u32>, c: u32, k: int)
    requires
        0 <= k <= bins.len(),
        forall|i: int| 0 <= i < bins.len() ==> bins[i] == c,
    ensures
        cumulative(bins, k) == k * c,
    decreases k,
{
    if k > 0 {
        lemma_cumulative_uniform(bins, c, k - 1);
        assert(bins[k - 1] == c);
        assert(k * c == (k - 1) * c + c) by (nonlinear_arith);
    } else {
        assert(k * c == 0) by (nonlinear_arith)
            requires
                k == 0,
        ;
    }
}

/// A flat histogram puts every percentile at its proportional place: with
/// `n` bins of `c` pixels each, `percent` percent of the `n * c` pixels lie
/// below exactly `percent * n / 100` bins. For the 128 bins of the analysis
/// pass this is within one bin of `percent` percent of the last bin index.
pub proof fn lemma_uniform_percentile(bins: Seq<u32>, c: u32, percent: u64)
    requires
        0 < c,
        0 < percent <= 100,
        forall|i: int| 0 <= i < bins.len() ==> bins[i] == c,
        0 < bins.len() * c <= u32::MAX,
        bins.len() <= usize::MAX,
    ensures
        percentile_of(bins, bins.len() * c, percent as int) matches Some(p) && {
            &&& 100 * p.numer() == percent * bins.len() * p.span
            &&& bins.len() == HISTOGRAM_BINS ==> 0 <= 100 * p.numer() - percent * 127 * p.span
                <= 100 * p.span
        },
{
    let n = bins.len() as int;
    let total = (n * c) as u32;
    lemma_cumulative_uniform(bins, c, n);
    assert(100 * (n * c) >= percent * (n * c)) by (nonlinear_arith)
        requires
            percent <= 100,
            n * c > 0,
    ;
    lemma_percentile_facts(bins, total, percent);
    let p = percentile_of(bins, total as int, percent as int)->Some_0;
    let k = p.bin as int;
    lemma_cumulative_uniform(bins, c, k);
    assert(100 * p.numer() == percent * n * p.span) by (nonlinear_arith)
        requires
            p.numer() == k * p.span + p.overshoot,
            p.overshoot == percent * (n * c) - 100 * (k * c),
            p.span == 100 * c,
    ;
    if n == 128 {
        assert(0 <= 100 * p.numer() - percent * 127 * p.span <= 100 * p.span) by (nonlinear_arith)
            requires
                100 * p.numer() == percent * 128 * p.span,
                0 < percent <= 100,
                0 < p.span,
        ;
    }
}

} // verus!
