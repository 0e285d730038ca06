//! Exponential Moving Average, seeded with the mean of the first `period` inputs.

use vstd::prelude::*;
use crate::primitives::warmup::{warmup_lookback, Warmup};
use crate::types::{invalid_parameter, IndicatorResult};

verus! {

/// Period of an exponential moving average. The smoothing multiplier,
/// `2 / (period + 1)` unless the caller supplies one in `(0, 1]`, is the caller's to
/// keep.
#[derive(Debug, Clone, Copy)]
pub struct Ema {
    period: usize,
}

impl Ema {
    #[verifier::type_invariant]
    spec fn inv(self) -> bool {
        self.period >= 1
    }

    /// The period as a specification value.
    pub closed spec fn spec_period(&self) -> usize {
        self.period
    }

    /// Warm-up length: the seed stands at index `period - 1`.
    pub open spec fn spec_lookback(&self) -> nat {
        (self.spec_period() - 1) as nat
    }

    /// Creates the parameters; a zero period is rejected.
    pub fn new(period: usize) -> (r: IndicatorResult<Self>)
        ensures
            period > 0 ==> r is Ok && r->Ok_0.spec_period() == period,
            period == 0 ==> r is Err && r->Err_0.is_invalid("period must be greater than 0"@),
    {
        if period == 0 {
            return Err(invalid_parameter("period must be greater than 0"));
        }
        Ok(Self { period })
    }

    /// The period.
    #[verifier::when_used_as_spec(spec_period)]
    pub fn period(&self) -> (p: usize)
        ensures
            p == self.spec_period(),
            p >= 1,
    {
        proof {
            use_type_invariant(self);
        }
        self.period
    }

    /// Warm-up length: the seed stands at index `period - 1`.
    pub fn lookback(&self) -> (l: usize)
        ensures
            l == self.spec_lookback(),
    {
        proof {
            use_type_invariant(self);
        }
        self.period - 1
    }

    /// A fresh schedule for a stream of this indicator. Its first emitting input is
    /// input number `lookback`.
    pub fn warmup(&self) -> (w: Warmup)
        ensures
            w.spec_period() == self.spec_period(),
            w.spec_primed() == false,
            w.ticks() == 0,
            warmup_lookback(w.spec_primed(), w.spec_period() as nat) == self.spec_lookback(),
    {
        proof {
            use_type_invariant(self);
        }
        Warmup::starting(self.period, false)
    }
}

} // verus!
