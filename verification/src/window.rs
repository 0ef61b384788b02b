//! The analysis window of the pitch detector: how one captured buffer is laid
//! out for the lag search.
use vstd::prelude::*;

verus! {

/// Why a buffer cannot be analysed.
#[derive(Clone, Copy, Debug, PartialEq, Eq, Structural)]
pub enum InvalidInput {
    /// The buffer holds fewer than two samples, so there is no lag to try.
    BufferTooShort,
    /// The sample rate is zero.
    ZeroSampleRate,
}

/// The layout of one analysis: the whole buffer is the window, and the lag
/// search covers its first half.
#[derive(Clone, Copy, Debug, PartialEq, Eq, Structural)]
pub struct AnalysisWindow {
    /// Number of samples in the buffer.
    pub size: usize,
    /// Scratch space the detector needs beyond the buffer: half its length.
    pub padding: usize,
    /// Samples per second.
    pub sample_rate: u32,
}

impl AnalysisWindow {
    /// A window is well formed when it has a lag to search and a sample rate
    /// to convert lags with.
    pub open spec fn well_formed(&self) -> bool {
        &&& self.size >= 2
        &&& self.padding == self.size / 2
        &&& self.sample_rate > 0
    }

    /// The window for a buffer of `len` samples captured at `sample_rate`.
    pub fn new(len: usize, sample_rate: u32) -> (result: Result<AnalysisWindow, InvalidInput>)
        ensures
            len < 2 ==> result == Err::<AnalysisWindow, InvalidInput>(InvalidInput::BufferTooShort),
            len >= 2 && sample_rate == 0 ==> result == Err::<AnalysisWindow, InvalidInput>(
                InvalidInput::ZeroSampleRate,
            ),
            len >= 2 && sample_rate > 0 ==> result == Ok::<AnalysisWindow, InvalidInput>(
                (AnalysisWindow { size: len, padding: len / 2, sample_rate }),
            ),
            result is Ok ==> result->Ok_0.well_formed(),
    {
        if len < 2 {
            Err(InvalidInput::BufferTooShort)
        } else if sample_rate == 0 {
            Err(InvalidInput::ZeroSampleRate)
        } else {
            Ok(AnalysisWindow { size: len, padding: len / 2, sample_rate })
        }
    }

    /// The largest lag, in samples, that the search tries.
    pub fn max_lag(&self) -> (lag: usize)
        requires
            self.well_formed(),
        ensures
            lag == self.size / 2,
            1 <= lag,
    {
        self.size / 2
    }

    /// The lowest frequency in hertz that the window can resolve, rounded
    /// down: the one whose period is the largest lag, twice the sample rate
    /// over the buffer length.
    pub fn lowest_frequency(&self) -> (hertz: u64)
        requires
            self.well_formed(),
        ensures
            hertz == (2 * self.sample_rate) / (self.size as int),
    {
        let doubled: u64 = 2 * (self.sample_rate as u64);
        doubled / (self.size as u64)
    }
}

} // verus!
