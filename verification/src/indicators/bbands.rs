//! Bollinger Bands: a simple moving average with bands `k` standard deviations
//! above and below it, from a running sum and a running sum of squares over the
//! same window.

use vstd::prelude::*;
use crate::primitives::ring::RingBuffer;
use crate::types::{invalid_parameter, IndicatorResult};

verus! {

/// Window of Bollinger bands. The number of standard deviations `k`, positive and
/// finite, is the caller's to keep.
#[derive(Debug, Clone, Copy)]
pub struct BBands {
    period: usize,
}

impl BBands {
    #[verifier::type_invariant]
    spec fn inv(self) -> bool {
        self.period >= 1
    }

    /// The period as a specification value.
    pub closed spec fn spec_period(&self) -> usize {
        self.period
    }

    /// Warm-up length: the first bands stand at index `period - 1`.
    pub open spec fn spec_lookback(&self) -> nat {
        (self.spec_period() - 1) as nat
    }

    /// Creates the parameters for a window of `period` prices; a zero period is
    /// rejected.
    pub fn with_period(period: usize) -> (r: IndicatorResult<Self>)
        ensures
            period > 0 ==> r is Ok && r->Ok_0.spec_period() == period,
            period == 0 ==> r is Err && r->Err_0.is_invalid("period must be greater than 0"@),
    {
        if period == 0 {
            return Err(invalid_parameter("period must be greater than 0"));
        }
        Ok(Self { period })
    }

    /// The period.
    #[verifier::when_used_as_spec(spec_period)]
    pub fn period(&self) -> (p: usize)
        ensures
            p == self.spec_period(),
            p >= 1,
    {
        proof {
            use_type_invariant(self);
        }
        self.period
    }

    /// Warm-up length: the first bands stand at index `period - 1`.
    pub fn lookback(&self) -> (l: usize)
        ensures
            l == self.spec_lookback(),
    {
        proof {
            use_type_invariant(self);
        }
        self.period - 1
    }

    /// An empty window of `period` items for a stream of this indicator. It is full,
    /// and the stream emits, from input number `lookback` on.
    pub fn window<T: Copy>(&self) -> (w: RingBuffer<T>)
        ensures
            w.spec_capacity() == self.spec_period(),
            w@ == Seq::<T>::empty(),
    {
        proof {
            use_type_invariant(self);
        }
        RingBuffer::sized(self.period)
    }
}

} // verus!
