//! Simple Moving Average: the arithmetic mean of the last `period` inputs.

use vstd::prelude::*;
use crate::primitives::ring::RingBuffer;
use crate::primitives::warmup::{warmup_lookback, Warmup};
use crate::types::{invalid_parameter, IndicatorResult};

verus! {

/// Parameters of a simple moving average.
#[derive(Debug, Clone, Copy)]
pub struct Sma {
    period: usize,
}

impl Sma {
    #[verifier::type_invariant]
    spec fn inv(self) -> bool {
        self.period >= 1
    }

    /// The period as a specification value.
    pub closed spec fn spec_period(&self) -> usize {
        self.period
    }

    /// Warm-up length: the first value stands at index `period - 1`.
    pub open spec fn spec_lookback(&self) -> nat {
        (self.spec_period() - 1) as nat
    }

    /// Creates the parameters; a zero period is rejected.
    pub fn new(period: usize) -> (r: IndicatorResult<Self>)
        ensures
            period > 0 ==> r is Ok && r->Ok_0.spec_period() == period,
            period == 0 ==> r is Err && r->Err_0.is_invalid("period must be greater than 0"@),
    {
        if period == 0 {
            return Err(invalid_parameter("period must be greater than 0"));
        }
        Ok(Self { period })
    }

    /// The period.
    #[verifier::when_used_as_spec(spec_period)]
    pub fn period(&self) -> (p: usize)
        ensures
            p == self.spec_period(),
            p >= 1,
    {
        proof {
            use_type_invariant(self);
        }
        self.period
    }

    /// Warm-up length: the first value stands at index `period - 1`.
    pub fn lookback(&self) -> (l: usize)
        ensures
            l == self.spec_lookback(),
    {
        proof {
            use_type_invariant(self);
        }
        self.period - 1
    }

    /// An empty window of `period` items for a stream of this indicator. It is full,
    /// and the stream emits, from input number `lookback` on.
    pub fn window<T: Copy>(&self) -> (w: RingBuffer<T>)
        ensures
            w.spec_capacity() == self.spec_period(),
            w@ == Seq::<T>::empty(),
    {
        proof {
            use_type_invariant(self);
        }
        RingBuffer::sized(self.period)
    }

    /// A fresh schedule for a stream of this indicator. Its first emitting input is
    /// input number `lookback`, the one that fills the window.
    pub fn warmup(&self) -> (w: Warmup)
        ensures
            w.spec_period() == self.spec_period(),
            w.spec_primed() == false,
            w.ticks() == 0,
            warmup_lookback(w.spec_primed(), w.spec_period() as nat) == self.spec_lookback(),
    {
        proof {
            use_type_invariant(self);
        }
        Warmup::starting(self.period, false)
    }
}

} // verus!
