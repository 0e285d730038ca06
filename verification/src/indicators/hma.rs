//! Hull Moving Average: `WMA_s(2 * WMA_h(x) - WMA_n(x))` with `h = n / 2` and
//! `s = floor(sqrt(n))`.

use vstd::prelude::*;
use crate::numeric::{floor_sqrt, is_floor_sqrt};
use crate::primitives::warmup::{warmup_step_at, Warmup, WarmupStep};
use crate::types::{invalid_parameter, IndicatorResult};

verus! {

/// Parameters of a Hull moving average.
#[derive(Debug, Clone, Copy)]
pub struct Hma {
    period: usize,
    half_period: usize,
    sqrt_period: usize,
}

/// What a streaming HMA does with one input.
#[derive(Debug, Clone, Copy, PartialEq, Eq)]
pub struct HmaStep {
    /// Step of the half-period WMA.
    pub half: WarmupStep,
    /// Step of the full-period WMA.
    pub full: WarmupStep,
    /// Step of the smoothing WMA on this input's raw value; `None` while the two
    /// WMAs do not both emit.
    pub smooth: Option<WarmupStep>,
}

/// The step taken on input number `tick` (from 0).
pub open spec fn hma_step_at(
    period: nat,
    half_period: nat,
    sqrt_period: nat,
    tick: nat,
) -> HmaStep {
    HmaStep {
        half: warmup_step_at(false, half_period, tick),
        full: warmup_step_at(false, period, tick),
        smooth: if tick + 1 >= period {
            Some(warmup_step_at(false, sqrt_period, (tick + 1 - period) as nat))
        } else {
            None
        },
    }
}

/// The raw series starts where the full WMA does, and HMA first appears at index
/// `period + sqrt_period - 2`.
pub proof fn lemma_hma_first_value(period: nat, half_period: nat, sqrt_period: nat, tick: nat)
    requires
        1 <= half_period <= period,
        sqrt_period >= 1,
    ensures
        (hma_step_at(period, half_period, sqrt_period, tick).smooth is Some) <==> (hma_step_at(
            period,
            half_period,
            sqrt_period,
            tick,
        ).half.emits() && hma_step_at(period, half_period, sqrt_period, tick).full.emits()),
        (hma_step_at(period, half_period, sqrt_period, tick).smooth matches Some(step)
            && step.emits()) <==> tick >= period + sqrt_period - 2,
{
}

impl Hma {
    #[verifier::type_invariant]
    spec fn inv(self) -> bool {
        &&& self.period >= 2
        &&& self.half_period == self.period / 2
        &&& is_floor_sqrt(self.period as nat, self.sqrt_period as nat)
    }

    /// The period `n` as a specification value.
    pub closed spec fn spec_period(&self) -> usize {
        self.period
    }

    /// The half period `h` as a specification value.
    pub closed spec fn spec_half_period(&self) -> usize {
        self.half_period
    }

    /// The smoothing period `s` as a specification value.
    pub closed spec fn spec_sqrt_period(&self) -> usize {
        self.sqrt_period
    }

    /// Warm-up length, `n + s - 2`.
    pub open spec fn spec_lookback(&self) -> nat {
        (self.spec_period() + self.spec_sqrt_period() - 2) as nat
    }

    /// Creates the parameters; a period below 2 is rejected.
    pub fn new(period: usize) -> (r: IndicatorResult<Self>)
        ensures
            period >= 2 ==> r is Ok && r->Ok_0.spec_period() == period
                && r->Ok_0.spec_half_period() == period / 2 && is_floor_sqrt(
                period as nat,
                r->Ok_0.spec_sqrt_period() as nat,
            ),
            period < 2 ==> r is Err && r->Err_0.is_invalid("period must be at least 2"@),
    {
        if period < 2 {
            return Err(invalid_parameter("period must be at least 2"));
        }
        Ok(Self { period, half_period: period / 2, sqrt_period: floor_sqrt(period) })
    }

    /// The period `n`.
    #[verifier::when_used_as_spec(spec_period)]
    pub fn period(&self) -> (p: usize)
        ensures
            p == self.spec_period(),
            p >= 2,
    {
        proof {
            use_type_invariant(self);
        }
        self.period
    }

    /// The half period, `n / 2`.
    #[verifier::when_used_as_spec(spec_half_period)]
    pub fn half_period(&self) -> (h: usize)
        ensures
            h == self.spec_half_period(),
            h == self.spec_period() / 2,
            h >= 1,
    {
        proof {
            use_type_invariant(self);
        }
        self.half_period
    }

    /// The smoothing period, `floor(sqrt(n))`.
    #[verifier::when_used_as_spec(spec_sqrt_period)]
    pub fn sqrt_period(&self) -> (s: usize)
        ensures
            s == self.spec_sqrt_period(),
            is_floor_sqrt(self.spec_period() as nat, s as nat),
            s >= 1,
    {
        proof {
            use_type_invariant(self);
            self.lemma_sqrt_period_bounds();
        }
        self.sqrt_period
    }

    /// The smoothing period is at least 1 and at most the period.
    proof fn lemma_sqrt_period_bounds(self)
        requires
            self.inv(),
        ensures
            1 <= self.sqrt_period <= self.period,
    {
        let s = self.sqrt_period as int;
        let n = self.period as int;
        assert(s >= 1) by (nonlinear_arith)
            requires
                n < (s + 1) * (s + 1),
                n >= 2,
                s >= 0,
        ;
        assert(s <= n) by (nonlinear_arith)
            requires
                s * s <= n,
                s >= 1,
        ;
    }

    /// Warm-up length, `n + s - 2`, or `usize::MAX` where that does not fit: no
    /// input is that long.
    pub fn lookback(&self) -> (l: usize)
        ensures
            l == vstd::math::min(self.spec_lookback() as int, usize::MAX as int),
    {
        proof {
            use_type_invariant(self);
            self.lemma_sqrt_period_bounds();
        }
        (self.period - 2).saturating_add(self.sqrt_period)
    }

    /// A fresh stream schedule for these parameters.
    pub fn stream(&self) -> (s: HmaStream)
        ensures
            s.params() == *self,
            s.ticks() == 0,
    {
        proof {
            use_type_invariant(self);
            self.lemma_sqrt_period_bounds();
        }
        HmaStream {
            params: *self,
            half: Warmup::starting(self.half_period, false),
            full: Warmup::starting(self.period, false),
            smooth: Warmup::starting(self.sqrt_period, false),
        }
    }
}

/// The input-counting state of a streaming HMA: three chained WMA stages.
#[derive(Clone, Copy)]
pub struct HmaStream {
    params: Hma,
    half: Warmup,
    full: Warmup,
    smooth: Warmup,
}

impl HmaStream {
    #[verifier::type_invariant]
    spec fn inv(self) -> bool {
        &&& self.params.inv()
        &&& self.half.spec_period() == self.params.half_period
        &&& self.full.spec_period() == self.params.period
        &&& self.smooth.spec_period() == self.params.sqrt_period
        &&& !self.half.spec_primed() && !self.full.spec_primed() && !self.smooth.spec_primed()
        &&& self.half.ticks() == self.full.ticks()
        &&& self.smooth.ticks() == if self.full.ticks() + 1 >= self.params.period {
            (self.full.ticks() + 1 - self.params.period) as nat
        } else {
            0
        }
    }

    /// The parameters the schedule was made for.
    pub closed spec fn params(&self) -> Hma {
        self.params
    }

    /// Number of inputs consumed since creation or the last reset.
    pub closed spec fn ticks(&self) -> nat {
        self.full.ticks()
    }

    /// A fresh stream schedule; a period below 2 is rejected.
    pub fn new(period: usize) -> (r: IndicatorResult<Self>)
        ensures
            period >= 2 ==> r is Ok && r->Ok_0.params().spec_period() == period
                && r->Ok_0.params().spec_half_period() == period / 2 && is_floor_sqrt(
                period as nat,
                r->Ok_0.params().spec_sqrt_period() as nat,
            ) && r->Ok_0.ticks() == 0,
            period < 2 ==> r is Err && r->Err_0.is_invalid("period must be at least 2"@),
    {
        match Hma::new(period) {
            Ok(hma) => Ok(hma.stream()),
            Err(e) => Err(e),
        }
    }

    /// The period `n`.
    pub fn period(&self) -> (p: usize)
        ensures
            p == self.params().spec_period(),
    {
        self.params.period()
    }

    /// The half period, `n / 2`.
    pub fn half_period(&self) -> (h: usize)
        ensures
            h == self.params().spec_half_period(),
    {
        self.params.half_period()
    }

    /// The smoothing period, `floor(sqrt(n))`.
    pub fn sqrt_period(&self) -> (s: usize)
        ensures
            s == self.params().spec_sqrt_period(),
    {
        self.params.sqrt_period()
    }

    /// Consumes one input and says what each stage does with it.
    pub fn next(&mut self) -> (step: HmaStep)
        ensures
            step == hma_step_at(
                old(self).params().spec_period() as nat,
                old(self).params().spec_half_period() as nat,
                old(self).params().spec_sqrt_period() as nat,
                old(self).ticks(),
            ),
            final(self).ticks() == old(self).ticks() + 1,
            final(self).params() == old(self).params(),
    {
        proof {
            use_type_invariant(&*self);
        }
        let params = self.params;
        let mut half = self.half;
        let mut full = self.full;
        let mut smooth = self.smooth;
        let half_step = half.next();
        let full_step = full.next();
        let smooth_step = if half_step.is_emitting() && full_step.is_emitting() {
            Some(smooth.next())
        } else {
            None
        };
        *self = HmaStream { params, half, full, smooth };
        HmaStep { half: half_step, full: full_step, smooth: smooth_step }
    }

    /// Forgets every input.
    pub fn reset(&mut self)
        ensures
            final(self).ticks() == 0,
            final(self).params() == old(self).params(),
    {
        proof {
            use_type_invariant(&*self);
        }
        let params = self.params;
        let mut half = self.half;
        let mut full = self.full;
        let mut smooth = self.smooth;
        half.reset();
        full.reset();
        smooth.reset();
        *self = HmaStream { params, half, full, smooth };
    }

    /// True once a value has been produced.
    pub fn is_ready(&self) -> (b: bool)
        ensures
            b == (self.ticks() > self.params().spec_lookback()),
    {
        proof {
            use_type_invariant(self);
        }
        self.smooth.is_ready()
    }
}

} // verus!
