//! Stochastic Oscillator: where the close stands between the lowest low and the
//! highest high of the last `k_period` bars.
//!
//! The raw %K exists from bar `k_period - 1` on. A fast stochastic reports it as %K;
//! a slow one reports its simple average over `slowing` bars. %D is the simple
//! average of the reported %K over `d_period` bars.

use vstd::prelude::*;
use crate::primitives::deque::{extremes_at, RollingExtremes};
use crate::primitives::warmup::{warmup_step_at, Warmup, WarmupStep};
use crate::types::{invalid_parameter, IndicatorResult};

verus! {

/// Fast or slow stochastic.
#[derive(Debug, Clone, Copy, PartialEq, Eq, Structural)]
pub enum StochType {
    /// %K is the raw value.
    Fast,
    /// %K is the raw value averaged over `slowing` bars.
    Slow,
}

/// Parameters of a stochastic oscillator.
#[derive(Debug, Clone, Copy)]
pub struct Stoch {
    k_period: usize,
    d_period: usize,
    slowing: usize,
    stoch_type: StochType,
}

/// Why a triple of periods is rejected, if it is: the rule text of the error.
pub open spec fn stoch_rejection(k_period: usize, d_period: usize, slowing: usize) -> Option<
    Seq<char>,
> {
    if k_period == 0 {
        Some("k_period must be greater than 0"@)
    } else if d_period == 0 {
        Some("d_period must be greater than 0"@)
    } else if slowing == 0 {
        Some("slowing must be greater than 0"@)
    } else {
        None
    }
}

/// Number of raw %K values a slow stochastic consumes before its first %K; a fast
/// one consumes none.
pub open spec fn stoch_k_delay(stoch_type: StochType, slowing: nat) -> nat {
    match stoch_type {
        StochType::Fast => 0,
        StochType::Slow => (slowing - 1) as nat,
    }
}

/// What a streaming stochastic does with one bar.
#[derive(Debug, Clone, Copy, PartialEq, Eq)]
pub struct StochStep {
    /// Highest high and lowest low of the last `k_period` bars, from which the raw
    /// %K follows; `None` inside the warm-up.
    pub extremes: Option<(i64, i64)>,
    /// Step of the slowing average on this bar's raw %K; `None` for a fast
    /// stochastic and while there is no raw %K.
    pub slowing: Option<WarmupStep>,
    /// Step of the %D average on this bar's %K; `None` while there is no %K.
    pub signal: Option<WarmupStep>,
}

/// The step taken on bar number `tick` (from 0), given the high and low keys of
/// every bar up to and including it.
pub open spec fn stoch_step_at(
    k_period: nat,
    d_period: nat,
    slowing: nat,
    stoch_type: StochType,
    highs: Seq<i64>,
    lows: Seq<i64>,
    tick: nat,
) -> StochStep {
    let k_from = (k_period - 1 + stoch_k_delay(stoch_type, slowing)) as nat;
    StochStep {
        extremes: extremes_at(highs, lows, k_period, tick as int),
        slowing: if stoch_type == StochType::Slow && tick + 1 >= k_period {
            Some(warmup_step_at(false, slowing, (tick + 1 - k_period) as nat))
        } else {
            None
        },
        signal: if tick >= k_from {
            Some(warmup_step_at(false, d_period, (tick - k_from) as nat))
        } else {
            None
        },
    }
}

/// %K appears from index `k_period - 1` (fast) or `k_period + slowing - 2` (slow)
/// on, and %D `d_period - 1` bars later.
pub proof fn lemma_stoch_first_values(
    k_period: nat,
    d_period: nat,
    slowing: nat,
    stoch_type: StochType,
    highs: Seq<i64>,
    lows: Seq<i64>,
    tick: nat,
)
    requires
        k_period >= 1,
        d_period >= 1,
        slowing >= 1,
        highs.len() == lows.len(),
        tick < highs.len(),
    ensures
        ({
            let step = stoch_step_at(k_period, d_period, slowing, stoch_type, highs, lows, tick);
            let k_from = k_period - 1 + stoch_k_delay(stoch_type, slowing);
            &&& step.extremes is Some <==> tick >= k_period - 1
            &&& stoch_type == StochType::Slow ==> ((step.slowing matches Some(s) && s.emits())
                <==> tick >= k_from)
            &&& step.signal is Some <==> tick >= k_from
            &&& (step.signal matches Some(s) && s.emits()) <==> tick >= k_from + d_period - 1
        }),
{
}

impl Stoch {
    #[verifier::type_invariant]
    spec fn inv(self) -> bool {
        &&& self.k_period >= 1
        &&& self.d_period >= 1
        &&& self.slowing >= 1
    }

    /// The lookback period as a specification value.
    pub closed spec fn spec_k_period(&self) -> usize {
        self.k_period
    }

    /// The %D period as a specification value.
    pub closed spec fn spec_d_period(&self) -> usize {
        self.d_period
    }

    /// The slowing period as a specification value.
    pub closed spec fn spec_slowing(&self) -> usize {
        self.slowing
    }

    /// Fast or slow, as a specification value.
    pub closed spec fn spec_stoch_type(&self) -> StochType {
        self.stoch_type
    }

    /// Index of the first %K.
    pub open spec fn spec_k_lookback(&self) -> nat {
        (self.spec_k_period() - 1 + stoch_k_delay(
            self.spec_stoch_type(),
            self.spec_slowing() as nat,
        )) as nat
    }

    /// Index of the first %D.
    pub open spec fn spec_d_lookback(&self) -> nat {
        (self.spec_k_lookback() + self.spec_d_period() - 1) as nat
    }

    /// Parameters with the usual slowing of 3.
    pub fn new(k_period: usize, d_period: usize, stoch_type: StochType) -> (r: IndicatorResult<
        Self,
    >)
        ensures
            stoch_rejection(k_period, d_period, 3) is None ==> r is Ok
                && r->Ok_0.spec_k_period() == k_period && r->Ok_0.spec_d_period() == d_period
                && r->Ok_0.spec_slowing() == 3 && r->Ok_0.spec_stoch_type() == stoch_type,
            stoch_rejection(k_period, d_period, 3) matches Some(reason) ==> r is Err
                && r->Err_0.is_invalid(reason),
    {
        Self::new_with_slowing(k_period, d_period, 3, stoch_type)
    }

    /// Parameters with the given slowing. A zero period is rejected; the error names
    /// the first one that is zero.
    pub fn new_with_slowing(
        k_period: usize,
        d_period: usize,
        slowing: usize,
        stoch_type: StochType,
    ) -> (r: IndicatorResult<Self>)
        ensures
            stoch_rejection(k_period, d_period, slowing) is None ==> r is Ok
                && r->Ok_0.spec_k_period() == k_period && r->Ok_0.spec_d_period() == d_period
                && r->Ok_0.spec_slowing() == slowing && r->Ok_0.spec_stoch_type() == stoch_type,
            stoch_rejection(k_period, d_period, slowing) matches Some(reason) ==> r is Err
                && r->Err_0.is_invalid(reason),
    {
        if k_period == 0 {
            return Err(invalid_parameter("k_period must be greater than 0"));
        }
        if d_period == 0 {
            return Err(invalid_parameter("d_period must be greater than 0"));
        }
        if slowing == 0 {
            return Err(invalid_parameter("slowing must be greater than 0"));
        }
        Ok(Self { k_period, d_period, slowing, stoch_type })
    }

    /// The lookback period.
    #[verifier::when_used_as_spec(spec_k_period)]
    pub fn k_period(&self) -> (p: usize)
        ensures
            p == self.spec_k_period(),
            p >= 1,
    {
        proof {
            use_type_invariant(self);
        }
        self.k_period
    }

    /// The %D period.
    #[verifier::when_used_as_spec(spec_d_period)]
    pub fn d_period(&self) -> (p: usize)
        ensures
            p == self.spec_d_period(),
            p >= 1,
    {
        proof {
            use_type_invariant(self);
        }
        self.d_period
    }

    /// The slowing period.
    #[verifier::when_used_as_spec(spec_slowing)]
    pub fn slowing(&self) -> (p: usize)
        ensures
            p == self.spec_slowing(),
            p >= 1,
    {
        proof {
            use_type_invariant(self);
        }
        self.slowing
    }

    /// Fast or slow.
    #[verifier::when_used_as_spec(spec_stoch_type)]
    pub fn stoch_type(&self) -> (t: StochType)
        ensures
            t == self.spec_stoch_type(),
    {
        self.stoch_type
    }

    /// Index of the first %K, or `usize::MAX` where that does not fit: no input is
    /// that long.
    pub fn k_lookback(&self) -> (l: usize)
        ensures
            l == vstd::math::min(self.spec_k_lookback() as int, usize::MAX as int),
    {
        proof {
            use_type_invariant(self);
        }
        match self.stoch_type {
            StochType::Fast => self.k_period - 1,
            StochType::Slow => (self.k_period - 1).saturating_add(self.slowing - 1),
        }
    }

    /// Index of the first %D, or `usize::MAX` where that does not fit: no input is
    /// that long.
    pub fn d_lookback(&self) -> (l: usize)
        ensures
            l == vstd::math::min(self.spec_d_lookback() as int, usize::MAX as int),
    {
        proof {
            use_type_invariant(self);
        }
        self.k_lookback().saturating_add(self.d_period - 1)
    }

    /// A fresh stream for these parameters.
    pub fn stream(&self) -> (s: StochStream)
        ensures
            s.params() == *self,
            s.highs() == Seq::<i64>::empty(),
            s.lows() == Seq::<i64>::empty(),
    {
        proof {
            use_type_invariant(self);
        }
        StochStream {
            params: *self,
            range: RollingExtremes::starting(self.k_period),
            slowing: Warmup::starting(self.slowing, false),
            signal: Warmup::starting(self.d_period, false),
        }
    }
}

/// The windowing state of a streaming stochastic: the extremes of the last
/// `k_period` bars and the fill state of the two averages that follow.
pub struct StochStream {
    params: Stoch,
    range: RollingExtremes,
    slowing: Warmup,
    signal: Warmup,
}

impl StochStream {
    #[verifier::type_invariant]
    spec fn inv(self) -> bool {
        let bars = self.range.highs().len();
        let raws: nat = if bars + 1 >= self.params.k_period {
            (bars + 1 - self.params.k_period) as nat
        } else {
            0
        };
        let delay = stoch_k_delay(self.params.stoch_type, self.params.slowing as nat);
        &&& self.params.inv()
        &&& self.range.spec_period() == self.params.k_period
        &&& self.range.lows().len() == bars
        &&& self.slowing.spec_period() == self.params.slowing
        &&& self.signal.spec_period() == self.params.d_period
        &&& !self.slowing.spec_primed() && !self.signal.spec_primed()
        &&& self.slowing.ticks() == (if self.params.stoch_type == StochType::Slow {
            raws
        } else {
            0
        })
        &&& self.signal.ticks() == (if raws >= delay {
            (raws - delay) as nat
        } else {
            0
        })
    }

    /// The parameters the stream was made for.
    pub closed spec fn params(&self) -> Stoch {
        self.params
    }

    /// The high key of every bar since creation or the last reset.
    pub closed spec fn highs(&self) -> Seq<i64> {
        self.range.highs()
    }

    /// The low key of every bar since creation or the last reset.
    pub closed spec fn lows(&self) -> Seq<i64> {
        self.range.lows()
    }

    /// A fresh stream with the usual slowing of 3.
    pub fn new(k_period: usize, d_period: usize, stoch_type: StochType) -> (r: IndicatorResult<
        Self,
    >)
        ensures
            stoch_rejection(k_period, d_period, 3) is None ==> r is Ok
                && r->Ok_0.params().spec_k_period() == k_period
                && r->Ok_0.params().spec_d_period() == d_period && r->Ok_0.params().spec_slowing()
                == 3 && r->Ok_0.params().spec_stoch_type() == stoch_type && r->Ok_0.highs()
                == Seq::<i64>::empty() && r->Ok_0.lows() == Seq::<i64>::empty(),
            stoch_rejection(k_period, d_period, 3) matches Some(reason) ==> r is Err
                && r->Err_0.is_invalid(reason),
    {
        Self::new_with_slowing(k_period, d_period, 3, stoch_type)
    }

    /// A fresh stream with the given slowing.
    pub fn new_with_slowing(
        k_period: usize,
        d_period: usize,
        slowing: usize,
        stoch_type: StochType,
    ) -> (r: IndicatorResult<Self>)
        ensures
            stoch_rejection(k_period, d_period, slowing) is None ==> r is Ok
                && r->Ok_0.params().spec_k_period() == k_period
                && r->Ok_0.params().spec_d_period() == d_period && r->Ok_0.params().spec_slowing()
                == slowing && r->Ok_0.params().spec_stoch_type() == stoch_type && r->Ok_0.highs()
                == Seq::<i64>::empty() && r->Ok_0.lows() == Seq::<i64>::empty(),
            stoch_rejection(k_period, d_period, slowing) matches Some(reason) ==> r is Err
                && r->Err_0.is_invalid(reason),
    {
        match Stoch::new_with_slowing(k_period, d_period, slowing, stoch_type) {
            Ok(stoch) => Ok(stoch.stream()),
            Err(e) => Err(e),
        }
    }

    /// The lookback period.
    pub fn k_period(&self) -> (p: usize)
        ensures
            p == self.params().spec_k_period(),
    {
        self.params.k_period()
    }

    /// The %D period.
    pub fn d_period(&self) -> (p: usize)
        ensures
            p == self.params().spec_d_period(),
    {
        self.params.d_period()
    }

    /// The slowing period.
    pub fn slowing(&self) -> (p: usize)
        ensures
            p == self.params().spec_slowing(),
    {
        self.params.slowing()
    }

    /// Fast or slow.
    pub fn stoch_type(&self) -> (t: StochType)
        ensures
            t == self.params().spec_stoch_type(),
    {
        self.params.stoch_type()
    }

    /// Consumes one bar's high and low keys; returns the window's extremes and what
    /// the two averages do with the values that follow from them.
    pub fn next(&mut self, high: i64, low: i64) -> (step: StochStep)
        ensures
            final(self).params() == old(self).params(),
            final(self).highs() == old(self).highs().push(high),
            final(self).lows() == old(self).lows().push(low),
            step == stoch_step_at(
                old(self).params().spec_k_period() as nat,
                old(self).params().spec_d_period() as nat,
                old(self).params().spec_slowing() as nat,
                old(self).params().spec_stoch_type(),
                final(self).highs(),
                final(self).lows(),
                old(self).highs().len(),
            ),
    {
        proof {
            use_type_invariant(&*self);
        }
        let params = self.params;
        let mut taken = params.stream();
        core::mem::swap(self, &mut taken);
        let mut range = taken.range;
        let mut slowing = taken.slowing;
        let mut signal = taken.signal;
        let extremes = range.next(high, low);
        let mut slowing_step: Option<WarmupStep> = None;
        let mut signal_step: Option<WarmupStep> = None;
        if extremes.is_some() {
            match params.stoch_type {
                StochType::Fast => {
                    signal_step = Some(signal.next());
                },
                StochType::Slow => {
                    let s = slowing.next();
                    slowing_step = Some(s);
                    if s.is_emitting() {
                        signal_step = Some(signal.next());
                    }
                },
            }
        }
        *self = StochStream { params, range, slowing, signal };
        StochStep { extremes, slowing: slowing_step, signal: signal_step }
    }

    /// Forgets every bar.
    pub fn reset(&mut self)
        ensures
            final(self).params() == old(self).params(),
            final(self).highs() == Seq::<i64>::empty(),
            final(self).lows() == Seq::<i64>::empty(),
    {
        proof {
            use_type_invariant(&*self);
        }
        *self = self.params.stream();
    }

    /// True once a full window of `k_period` bars has been seen.
    pub fn is_ready(&self) -> (b: bool)
        ensures
            b == (self.highs().len() >= self.params().spec_k_period()),
    {
        proof {
            use_type_invariant(self);
        }
        self.range.is_ready()
    }
}

impl Clone for StochStream {
    /// A stream in the same state.
    fn clone(&self) -> (copy: Self)
        ensures
            copy.params() == self.params(),
            copy.highs() == self.highs(),
            copy.lows() == self.lows(),
    {
        proof {
            use_type_invariant(self);
        }
        StochStream {
            params: self.params,
            range: self.range.clone(),
            slowing: self.slowing,
            signal: self.signal,
        }
    }
}

} // verus!
