//! Cumulative Volume Delta: the running sum of per-bar buy-versus-sell pressure.
//!
//! Neither input mode has a parameter or a warm-up: every position of the output is
//! the prefix sum up to it.

use vstd::prelude::*;

verus! {

/// Cumulative volume delta over a series of signed deltas.
#[derive(Debug, Clone, Copy)]
pub struct Cvd;

impl Cvd {
    /// The calculator; it has no parameter.
    pub fn new() -> (c: Self)
        ensures
            c == Cvd,
    {
        Cvd
    }
}

impl Default for Cvd {
    fn default() -> (c: Self)
        ensures
            c == Cvd,
    {
        Cvd
    }
}

/// Cumulative volume delta over bars, each bar's delta approximated from where its
/// close stands in its range.
#[derive(Debug, Clone, Copy)]
pub struct CvdOhlcv;

impl CvdOhlcv {
    /// The calculator; it has no parameter.
    pub fn new() -> (c: Self)
        ensures
            c == CvdOhlcv,
    {
        CvdOhlcv
    }
}

impl Default for CvdOhlcv {
    fn default() -> (c: Self)
        ensures
            c == CvdOhlcv,
    {
        CvdOhlcv
    }
}

} // verus!
