//! Linear Regression Channels over a sliding window of closes.

use vstd::prelude::*;
use crate::primitives::ring::RingBuffer;
use crate::types::{invalid_parameter, IndicatorResult};

verus! {

/// Window of a linear regression. The band multiplier, non-negative and finite, is
/// the caller's to keep.
#[derive(Debug, Clone, Copy)]
pub struct LinReg {
    period: usize,
}

impl LinReg {
    #[verifier::type_invariant]
    spec fn inv(self) -> bool {
        self.period >= 2
    }

    /// The period as a specification value.
    pub closed spec fn spec_period(&self) -> usize {
        self.period
    }

    /// Warm-up length: the first regression stands at index `period - 1`.
    pub open spec fn spec_lookback(&self) -> nat {
        (self.spec_period() - 1) as nat
    }

    /// Creates the parameters for a window of `period` closes; a period below 2 is
    /// rejected.
    pub fn with_period(period: usize) -> (r: IndicatorResult<Self>)
        ensures
            period >= 2 ==> r is Ok && r->Ok_0.spec_period() == period,
            period < 2 ==> r is Err && r->Err_0.is_invalid(
                "period must be at least 2 for regression"@,
            ),
    {
        if period < 2 {
            return Err(invalid_parameter("period must be at least 2 for regression"));
        }
        Ok(Self { period })
    }

    /// The period.
    #[verifier::when_used_as_spec(spec_period)]
    pub fn period(&self) -> (p: usize)
        ensures
            p == self.spec_period(),
            p >= 2,
    {
        proof {
            use_type_invariant(self);
        }
        self.period
    }

    /// Warm-up length: the first regression stands at index `period - 1`.
    pub fn lookback(&self) -> (l: usize)
        ensures
            l == self.spec_lookback(),
    {
        proof {
            use_type_invariant(self);
        }
        self.period - 1
    }

    /// An empty window of `period` items for a stream of this indicator. It is full,
    /// and the stream emits, from input number `lookback` on.
    pub fn window<T: Copy>(&self) -> (w: RingBuffer<T>)
        ensures
            w.spec_capacity() == self.spec_period(),
            w@ == Seq::<T>::empty(),
    {
        proof {
            use_type_invariant(self);
        }
        RingBuffer::sized(self.period)
    }
}

} // verus!
