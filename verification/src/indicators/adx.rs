//! Average Directional Index.
//!
//! Two Wilder stages in a row. The first smooths true range and the two directional
//! movements; each needs the previous bar, so it is primed by the first bar and
//! seeded by bar `period`, where +DI and -DI first appear. Every bar from there on
//! yields a DX value, and the second stage smooths those: it is seeded by the mean
//! of the first `period` DX values, so ADX first appears at bar `2 * period - 1`.

use vstd::prelude::*;
use crate::primitives::warmup::{warmup_step_at, Warmup, WarmupStep};
use crate::types::{invalid_parameter, IndicatorResult};

verus! {

/// Parameters of an average directional index.
#[derive(Debug, Clone, Copy)]
pub struct Adx {
    period: usize,
}

/// What a streaming ADX does with one bar.
#[derive(Debug, Clone, Copy, PartialEq, Eq)]
pub struct AdxStep {
    /// Step of the directional stage (true range, +DM, -DM).
    pub di: WarmupStep,
    /// Step of the ADX stage on the DX value of this bar; `None` while the
    /// directional stage yields no DX.
    pub adx: Option<WarmupStep>,
}

/// The step taken on bar number `tick` (from 0).
pub open spec fn adx_step_at(period: nat, tick: nat) -> AdxStep {
    AdxStep {
        di: warmup_step_at(true, period, tick),
        adx: if tick >= period {
            Some(warmup_step_at(false, period, (tick - period) as nat))
        } else {
            None
        },
    }
}

/// +DI and -DI appear from bar `period` on, ADX from bar `2 * period - 1` on, and
/// the bars on which each is seeded are exactly those two.
pub proof fn lemma_adx_first_values(period: nat, tick: nat)
    requires
        period >= 1,
    ensures
        adx_step_at(period, tick).di.emits() <==> tick >= period,
        adx_step_at(period, tick).di is First <==> tick == period,
        (adx_step_at(period, tick).adx matches Some(step) && step.emits()) <==> tick >= 2 * period
            - 1,
        adx_step_at(period, tick).adx == Some(WarmupStep::First) <==> tick == 2 * period - 1,
{
}

impl Adx {
    #[verifier::type_invariant]
    spec fn inv(self) -> bool {
        self.period >= 1
    }

    /// The period as a specification value.
    pub closed spec fn spec_period(&self) -> usize {
        self.period
    }

    /// Index of the first +DI and -DI.
    pub open spec fn spec_di_lookback(&self) -> nat {
        self.spec_period() as nat
    }

    /// Index of the first ADX.
    pub open spec fn spec_adx_lookback(&self) -> nat {
        (2 * self.spec_period() - 1) as nat
    }

    /// Creates the parameters; a zero period is rejected.
    pub fn new(period: usize) -> (r: IndicatorResult<Self>)
        ensures
            period > 0 ==> r is Ok && r->Ok_0.spec_period() == period,
            period == 0 ==> r is Err && r->Err_0.is_invalid("period must be greater than 0"@),
    {
        if period == 0 {
            return Err(invalid_parameter("period must be greater than 0"));
        }
        Ok(Self { period })
    }

    /// The period.
    #[verifier::when_used_as_spec(spec_period)]
    pub fn period(&self) -> (p: usize)
        ensures
            p == self.spec_period(),
            p >= 1,
    {
        proof {
            use_type_invariant(self);
        }
        self.period
    }

    /// Index of the first +DI and -DI.
    pub fn di_lookback(&self) -> (l: usize)
        ensures
            l == self.spec_di_lookback(),
    {
        self.period
    }

    /// Index of the first ADX, or `usize::MAX` where that index does not fit: no
    /// input is that long.
    pub fn adx_lookback(&self) -> (l: usize)
        ensures
            l == vstd::math::min(self.spec_adx_lookback() as int, usize::MAX as int),
    {
        proof {
            use_type_invariant(self);
        }
        self.period.saturating_add(self.period - 1)
    }

    /// A fresh stream schedule for these parameters.
    pub fn stream(&self) -> (s: AdxStream)
        ensures
            s.spec_period() == self.spec_period(),
            s.ticks() == 0,
    {
        proof {
            use_type_invariant(self);
        }
        AdxStream {
            di: Warmup::starting(self.period, true),
            adx: Warmup::starting(self.period, false),
        }
    }
}

/// The bar-counting state of a streaming ADX: for each bar, which of the two stages
/// accumulates, is seeded, or smooths.
#[derive(Clone, Copy)]
pub struct AdxStream {
    di: Warmup,
    adx: Warmup,
}

impl AdxStream {
    #[verifier::type_invariant]
    spec fn inv(self) -> bool {
        &&& self.di.spec_period() >= 1
        &&& self.adx.spec_period() == self.di.spec_period()
        &&& self.di.spec_primed()
        &&& !self.adx.spec_primed()
        &&& self.adx.ticks() == if self.di.ticks() >= self.di.spec_period() {
            (self.di.ticks() - self.di.spec_period()) as nat
        } else {
            0
        }
    }

    /// The period.
    pub closed spec fn spec_period(&self) -> usize {
        self.di.spec_period()
    }

    /// Number of bars consumed since creation or the last reset.
    pub closed spec fn ticks(&self) -> nat {
        self.di.ticks()
    }

    /// A fresh stream schedule; a zero period is rejected.
    pub fn new(period: usize) -> (r: IndicatorResult<Self>)
        ensures
            period > 0 ==> r is Ok && r->Ok_0.spec_period() == period && r->Ok_0.ticks() == 0,
            period == 0 ==> r is Err && r->Err_0.is_invalid("period must be greater than 0"@),
    {
        match Adx::new(period) {
            Ok(adx) => Ok(adx.stream()),
            Err(e) => Err(e),
        }
    }

    /// The period.
    #[verifier::when_used_as_spec(spec_period)]
    pub fn period(&self) -> (p: usize)
        ensures
            p == self.spec_period(),
            p >= 1,
    {
        self.di.period()
    }

    /// Consumes one bar and says what each stage does with it.
    pub fn next(&mut self) -> (step: AdxStep)
        ensures
            step == adx_step_at(old(self).spec_period() as nat, old(self).ticks()),
            final(self).ticks() == old(self).ticks() + 1,
            final(self).spec_period() == old(self).spec_period(),
    {
        proof {
            use_type_invariant(&*self);
        }
        let mut di = self.di;
        let mut adx = self.adx;
        let di_step = di.next();
        let adx_step = if di_step.is_emitting() {
            Some(adx.next())
        } else {
            None
        };
        *self = AdxStream { di, adx };
        AdxStep { di: di_step, adx: adx_step }
    }

    /// Forgets every bar.
    pub fn reset(&mut self)
        ensures
            final(self).ticks() == 0,
            final(self).spec_period() == old(self).spec_period(),
    {
        proof {
            use_type_invariant(&*self);
        }
        let mut di = self.di;
        let mut adx = self.adx;
        di.reset();
        adx.reset();
        *self = AdxStream { di, adx };
    }

    /// True once +DI and -DI have been produced.
    pub fn has_di(&self) -> (b: bool)
        ensures
            b == (self.ticks() > self.spec_period()),
    {
        proof {
            use_type_invariant(self);
        }
        self.di.is_ready()
    }

    /// True once ADX has been produced.
    pub fn is_ready(&self) -> (b: bool)
        ensures
            b == (self.ticks() >= 2 * self.spec_period()),
    {
        proof {
            use_type_invariant(self);
        }
        self.adx.is_ready()
    }
}

} // verus!
