//! The warm-up schedule shared by every seeded or windowed stage.
//!
//! A stage of period `n` cannot produce a value before it has taken in `n` samples;
//! a stage that works on differences of consecutive inputs needs one more input to
//! prime the first difference. What the stage must do with each input therefore
//! depends only on how many inputs came before it: [`warmup_step_at`] is that
//! function, and [`Warmup`] the counter that streams it.

use vstd::prelude::*;
use crate::types::{invalid_parameter, IndicatorResult};

verus! {

/// What a stage does with one input.
#[derive(Debug, Clone, Copy, PartialEq, Eq, Structural)]
pub enum WarmupStep {
    /// The input only primes the stage (it becomes the "previous" value); no sample
    /// is formed.
    Prime,
    /// The sample is accumulated; the stage has fewer than `period` samples.
    Fill,
    /// The sample completes the first `period` samples: the stage is seeded (first
    /// full window, arithmetic mean of the first `period` samples) and emits.
    First,
    /// The stage is already seeded: it slides or smooths, and emits.
    Steady,
}

impl WarmupStep {
    /// True for the two steps on which the stage produces a value.
    pub open spec fn emits(self) -> bool {
        self is First || self is Steady
    }

    /// True for the two steps on which the stage produces a value.
    #[verifier::when_used_as_spec(emits)]
    pub fn is_emitting(self) -> (b: bool)
        ensures
            b == self.emits(),
    {
        match self {
            WarmupStep::First | WarmupStep::Steady => true,
            _ => false,
        }
    }
}

/// Number of inputs a stage consumes before its first sample: one if it is primed.
pub open spec fn warmup_lead(primed: bool) -> nat {
    if primed { 1 } else { 0 }
}

/// Index (from 0) of the first input on which a stage of `period >= 1` emits.
pub open spec fn warmup_lookback(primed: bool, period: nat) -> nat {
    (warmup_lead(primed) + period - 1) as nat
}

/// The step taken on input number `tick` (from 0).
pub open spec fn warmup_step_at(primed: bool, period: nat, tick: nat) -> WarmupStep {
    if tick < warmup_lead(primed) {
        WarmupStep::Prime
    } else if tick < warmup_lookback(primed, period) {
        WarmupStep::Fill
    } else if tick == warmup_lookback(primed, period) {
        WarmupStep::First
    } else {
        WarmupStep::Steady
    }
}

/// A stage emits on exactly the inputs from its lookback on: the first
/// `warmup_lookback` positions of any output are warm-up, the next one is not.
pub proof fn lemma_warmup_emits_from_lookback(primed: bool, period: nat, tick: nat)
    requires
        period >= 1,
    ensures
        warmup_step_at(primed, period, tick).emits() <==> tick >= warmup_lookback(primed, period),
        warmup_step_at(primed, period, tick) is First <==> tick == warmup_lookback(primed, period),
        warmup_step_at(primed, period, tick) is Prime <==> primed && tick == 0,
{
}

/// Streaming form of [`warmup_step_at`]: counts inputs and reports each one's step.
#[derive(Clone, Copy)]
pub struct Warmup {
    period: usize,
    primed: bool,
    /// True until a primed stage has seen its priming input.
    waiting: bool,
    /// Samples taken in so far, capped at `period`.
    filled: usize,
    seen: Ghost<nat>,
}

impl Warmup {
    #[verifier::type_invariant]
    spec fn inv(self) -> bool {
        &&& self.period >= 1
        &&& self.waiting ==> self.primed && self.seen@ == 0 && self.filled == 0
        &&& !self.waiting ==> {
            &&& self.seen@ >= warmup_lead(self.primed)
            &&& self.filled as int == vstd::math::min(
                self.seen@ - warmup_lead(self.primed),
                self.period as int,
            )
        }
    }

    /// The stage's period.
    pub closed spec fn spec_period(&self) -> usize {
        self.period
    }

    /// Whether the first input only primes the stage.
    pub closed spec fn spec_primed(&self) -> bool {
        self.primed
    }

    /// Number of inputs consumed since creation or the last reset.
    pub closed spec fn ticks(&self) -> nat {
        self.seen@
    }

    /// True once the stage has emitted.
    pub open spec fn spec_is_ready(&self) -> bool {
        self.ticks() > warmup_lookback(self.spec_primed(), self.spec_period() as nat)
    }

    /// A fresh schedule for a period already known to be positive.
    pub(crate) fn starting(period: usize, primed: bool) -> (w: Self)
        requires
            period >= 1,
        ensures
            w.spec_period() == period,
            w.spec_primed() == primed,
            w.ticks() == 0,
    {
        Warmup { period, primed, waiting: primed, filled: 0, seen: Ghost(0) }
    }

    /// A fresh schedule. A zero period is rejected.
    pub fn new(period: usize, primed: bool) -> (r: IndicatorResult<Self>)
        ensures
            period > 0 ==> r is Ok && r->Ok_0.spec_period() == period
                && r->Ok_0.spec_primed() == primed && r->Ok_0.ticks() == 0,
            period == 0 ==> r is Err && r->Err_0.is_invalid("period must be greater than 0"@),
    {
        if period == 0 {
            return Err(invalid_parameter("period must be greater than 0"));
        }
        Ok(Self::starting(period, primed))
    }

    /// The stage's period.
    #[verifier::when_used_as_spec(spec_period)]
    pub fn period(&self) -> (p: usize)
        ensures
            p == self.spec_period(),
            p >= 1,
    {
        proof {
            use_type_invariant(self);
        }
        self.period
    }

    /// Whether the first input only primes the stage.
    #[verifier::when_used_as_spec(spec_primed)]
    pub fn primed(&self) -> (b: bool)
        ensures
            b == self.spec_primed(),
    {
        self.primed
    }

    /// Consumes one input and says what to do with it.
    pub fn next(&mut self) -> (step: WarmupStep)
        ensures
            step == warmup_step_at(
                old(self).spec_primed(),
                old(self).spec_period() as nat,
                old(self).ticks(),
            ),
            final(self).ticks() == old(self).ticks() + 1,
            final(self).spec_period() == old(self).spec_period(),
            final(self).spec_primed() == old(self).spec_primed(),
    {
        proof {
            use_type_invariant(&*self);
        }
        if self.waiting {
            *self = Warmup {
                period: self.period,
                primed: self.primed,
                waiting: false,
                filled: 0,
                seen: Ghost(1),
            };
            WarmupStep::Prime
        } else if self.filled < self.period {
            let filled = self.filled + 1;
            *self = Warmup {
                period: self.period,
                primed: self.primed,
                waiting: false,
                filled,
                seen: Ghost(self.seen@ + 1),
            };
            if filled == self.period {
                WarmupStep::First
            } else {
                WarmupStep::Fill
            }
        } else {
            *self = Warmup {
                period: self.period,
                primed: self.primed,
                waiting: false,
                filled: self.filled,
                seen: Ghost(self.seen@ + 1),
            };
            WarmupStep::Steady
        }
    }

    /// Forgets every input.
    pub fn reset(&mut self)
        ensures
            final(self).ticks() == 0,
            final(self).spec_period() == old(self).spec_period(),
            final(self).spec_primed() == old(self).spec_primed(),
    {
        proof {
            use_type_invariant(&*self);
        }
        *self = Warmup {
            period: self.period,
            primed: self.primed,
            waiting: self.primed,
            filled: 0,
            seen: Ghost(0),
        };
    }

    /// True once the stage has emitted.
    #[verifier::when_used_as_spec(spec_is_ready)]
    pub fn is_ready(&self) -> (b: bool)
        ensures
            b == self.spec_is_ready(),
    {
        proof {
            use_type_invariant(self);
        }
        !self.waiting && self.filled == self.period
    }
}

} // verus!
