//! The histogram compute engine as seen from the CPU: whether a dispatch may
//! start, and what a finished dispatch's readback does to the histogram state.
//!
//! The GPU work itself (clearing the bins buffer, the compute dispatch, the
//! fence wait and the readback) is done by the caller between an accepted
//! `try_dispatch` and the matching `submit`.
use vstd::prelude::*;
use crate::histogram::{
    cumulative, lemma_low_not_above_high, percentile_of, percentile_position, BinPosition, ANALYSIS_PIXELS, HIGH_PERCENT, HISTOGRAM_BINS,
    LOW_PERCENT,
};

verus! {

/// Whether a histogram dispatch is in flight.
#[derive(Clone, Copy, Debug, PartialEq, Eq, Structural)]
pub enum EngineState {
    Idle,
    Dispatching,
}

/// Histogram bins of the last completed dispatch, the percentile positions
/// derived from them, and the dispatch state.
#[derive(Debug)]
pub struct HistogramCompute {
    pub state: EngineState,
    pub bins: Vec<u32>,
    pub low_percentile_bin: BinPosition,
    pub high_percentile_bin: BinPosition,
}

/// The position kept when a readback never reaches the threshold.
pub open spec fn position_or(found: Option<BinPosition>, previous: BinPosition) -> BinPosition {
    match found {
        Some(p) => p,
        None => previous,
    }
}

impl HistogramCompute {
    /// Both percentile positions are well formed positions in the histogram.
    pub open spec fn wf(&self) -> bool {
        self.low_percentile_bin.in_histogram() && self.high_percentile_bin.in_histogram()
    }

    /// A dispatch request: accepted, and the engine marked busy, only when idle;
    /// otherwise refused with nothing changed.
    pub open spec fn dispatch_outcome(self) -> (bool, HistogramCompute) {
        if self.state == EngineState::Idle {
            (true, HistogramCompute { state: EngineState::Dispatching, ..self })
        } else {
            (false, self)
        }
    }

    /// The engine after a dispatch finished: idle again, and with a readback
    /// the new bins and each percentile position that they reach.
    pub open spec fn completed(self, readback: Option<Vec<u32>>) -> HistogramCompute {
        match readback {
            None => HistogramCompute { state: EngineState::Idle, ..self },
            Some(bins) => HistogramCompute {
                state: EngineState::Idle,
                bins: bins,
                low_percentile_bin: position_or(
                    percentile_of(bins@, ANALYSIS_PIXELS as int, LOW_PERCENT as int),
                    self.low_percentile_bin,
                ),
                high_percentile_bin: position_or(
                    percentile_of(bins@, ANALYSIS_PIXELS as int, HIGH_PERCENT as int),
                    self.high_percentile_bin,
                ),
            },
        }
    }

    /// An idle engine with empty bins, the low position at the first bin and
    /// the high position at the last.
    pub fn new() -> (r: HistogramCompute)
        ensures
            r.wf(),
            r.state == EngineState::Idle,
            r.bins@.len() == HISTOGRAM_BINS,
            forall|i: int| 0 <= i < HISTOGRAM_BINS ==> r.bins@[i] == 0,
            r.low_percentile_bin == BinPosition::at_bin_spec(0),
            r.high_percentile_bin == BinPosition::at_bin_spec((HISTOGRAM_BINS - 1) as usize),
    {
        let mut bins: Vec<u32> = Vec::new();
        let mut i: usize = 0;
        while i < HISTOGRAM_BINS
            invariant
                0 <= i <= HISTOGRAM_BINS,
                bins@.len() == i,
                forall|j: int| 0 <= j < i ==> bins@[j] == 0,
            decreases HISTOGRAM_BINS - i,
        {
            bins.push(0);
            i = i + 1;
        }
        HistogramCompute {
            state: EngineState::Idle,
            bins,
            low_percentile_bin: BinPosition::at_bin(0),
            high_percentile_bin: BinPosition::at_bin(HISTOGRAM_BINS - 1),
        }
    }

    /// Whether a dispatch is in flight.
    pub fn is_busy(&self) -> (r: bool)
        ensures
            r == (self.state == EngineState::Dispatching),
    {
        match self.state {
            EngineState::Idle => false,
            EngineState::Dispatching => true,
        }
    }

    /// Asks to start a dispatch. Returns whether it was accepted; only then
    /// may the caller submit GPU work and later report it with `submit`.
    pub fn try_dispatch(&mut self) -> (accepted: bool)
        ensures
            (accepted, *final(self)) == old(self).dispatch_outcome(),
    {
        match self.state {
            EngineState::Idle => {
                self.state = EngineState::Dispatching;
                true
            },
            EngineState::Dispatching => false,
        }
    }

    /// Finishes a dispatch. `readback` holds the bins read back from the GPU,
    /// or `None` when the submission failed, in which case the previous
    /// histogram is kept. The engine is idle afterwards either way.
    pub fn submit(&mut self, readback: Option<Vec<u32>>)
        requires
            old(self).wf(),
            readback matches Some(bins) ==> bins@.len() == HISTOGRAM_BINS,
        ensures
            final(self).wf(),
            *final(self) == old(self).completed(readback),
    {
        self.state = EngineState::Idle;
        match readback {
            None => {},
            Some(bins) => {
                let low = percentile_position(bins.as_slice(), ANALYSIS_PIXELS, LOW_PERCENT);
                let high = percentile_position(bins.as_slice(), ANALYSIS_PIXELS, HIGH_PERCENT);
                if let Some(p) = low {
                    self.low_percentile_bin = p;
                }
                if let Some(p) = high {
                    self.high_percentile_bin = p;
                }
                self.bins = bins;
            },
        }
    }
}

/// While a dispatch is in flight, another request is refused and changes
/// nothing: after an accepted request, a second one leaves the engine, its
/// bins and its percentile positions exactly as the first left them.
pub proof fn lemma_busy_dispatch_is_noop(e: HistogramCompute)
    ensures
        e.state == EngineState::Dispatching ==> e.dispatch_outcome() == (false, e),
        e.dispatch_outcome().0 ==> ({
            let first = e.dispatch_outcome().1;
            let second = first.dispatch_outcome();
            &&& !second.0
            &&& second.1 == first
            &&& second.1.bins == e.bins
            &&& second.1.low_percentile_bin == e.low_percentile_bin
            &&& second.1.high_percentile_bin == e.high_percentile_bin
        }),
{
}

/// A readback that accounts for every pixel of the analysis buffer always
/// yields both percentile positions, with the low one at or below the high one.
pub proof fn lemma_full_readback_orders_positions(e: HistogramCompute, bins: Vec<u32>)
    requires
        bins@.len() == HISTOGRAM_BINS,
        cumulative(bins@, bins@.len() as int) == ANALYSIS_PIXELS,
    ensures
        percentile_of(bins@, ANALYSIS_PIXELS as int, LOW_PERCENT as int) is Some,
        percentile_of(bins@, ANALYSIS_PIXELS as int, HIGH_PERCENT as int) is Some,
        e.completed(Some(bins)).low_percentile_bin.le(e.completed(Some(bins)).high_percentile_bin),
{
    lemma_low_not_above_high(bins@, ANALYSIS_PIXELS);
}

} // verus!
