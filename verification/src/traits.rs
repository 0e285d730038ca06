//! The two interfaces every indicator exposes.

use vstd::prelude::*;
use crate::types::IndicatorResult;

verus! {

/// Batch mode: one pure operation over a whole input.
pub trait Indicator<Input, Output> {
    /// Computes the indicator over the whole input. The result is aligned with the
    /// input; positions inside the warm-up hold the output type's sentinel.
    fn calculate(&self, data: Input) -> IndicatorResult<Output>;
}

/// Streaming mode: owned state, one element at a time.
pub trait StreamingIndicator<Input, Output> {
    /// Clears the state and replays `data`, returning what batch mode would.
    fn init(&mut self, data: &[Input]) -> IndicatorResult<Vec<Output>>;

    /// Consumes one element; `Some` once the warm-up is complete.
    fn next(&mut self, value: Input) -> Option<Output>;

    /// Clears all state.
    fn reset(&mut self);

    /// True once a value has been produced.
    fn is_ready(&self) -> bool;
}

} // verus!
