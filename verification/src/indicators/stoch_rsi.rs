//! Stochastic RSI: the stochastic oscillator applied to an RSI series.
//!
//! Four stages in a row: the RSI itself, the extremes of the last `stoch_period` RSI
//! values, a simple average of the raw value over `k_smooth` (%K), and a simple
//! average of %K over `d_period` (%D). %K becomes valid before %D does.

use vstd::prelude::*;
use crate::primitives::deque::{extremes_at, RollingExtremes};
use crate::primitives::warmup::{warmup_step_at, Warmup, WarmupStep};
use crate::types::{invalid_parameter, IndicatorResult};

verus! {

/// Parameters of a stochastic RSI.
#[derive(Debug, Clone, Copy)]
pub struct StochRsi {
    rsi_period: usize,
    stoch_period: usize,
    k_smooth: usize,
    d_period: usize,
}

/// Why a quadruple of periods is rejected, if it is: the rule text of the error.
pub open spec fn stoch_rsi_rejection(
    rsi_period: usize,
    stoch_period: usize,
    k_smooth: usize,
    d_period: usize,
) -> Option<Seq<char>> {
    if rsi_period == 0 {
        Some("RSI period must be > 0"@)
    } else if stoch_period == 0 {
        Some("Stochastic period must be > 0"@)
    } else if k_smooth == 0 {
        Some("K smoothing period must be > 0"@)
    } else if d_period == 0 {
        Some("D period must be > 0"@)
    } else {
        None
    }
}

/// What the stages after the RSI do with one RSI value.
#[derive(Debug, Clone, Copy, PartialEq, Eq)]
pub struct StochRsiStep {
    /// Highest and lowest of the last `stoch_period` RSI values, from which the raw
    /// value follows; `None` inside the warm-up.
    pub extremes: Option<(i64, i64)>,
    /// Step of the %K average on this value's raw stochastic; `None` while there is
    /// no raw value.
    pub k: Option<WarmupStep>,
    /// Step of the %D average on this value's %K; `None` while there is no %K.
    pub d: Option<WarmupStep>,
}

/// The step taken on RSI value number `i` (from 0), given the keys of every RSI
/// value up to and including it.
pub open spec fn stoch_rsi_step_at(
    stoch_period: nat,
    k_smooth: nat,
    d_period: nat,
    rsi_values: Seq<i64>,
    i: nat,
) -> StochRsiStep {
    StochRsiStep {
        extremes: extremes_at(rsi_values, rsi_values, stoch_period, i as int),
        k: if i + 1 >= stoch_period {
            Some(warmup_step_at(false, k_smooth, (i + 1 - stoch_period) as nat))
        } else {
            None
        },
        d: if i + 2 >= stoch_period + k_smooth {
            Some(warmup_step_at(false, d_period, (i + 2 - stoch_period - k_smooth) as nat))
        } else {
            None
        },
    }
}

/// Counted in RSI values, the raw value appears from number `stoch_period - 1` on,
/// %K `k_smooth - 1` values later and %D `d_period - 1` values after that.
pub proof fn lemma_stoch_rsi_first_values(
    stoch_period: nat,
    k_smooth: nat,
    d_period: nat,
    rsi_values: Seq<i64>,
    i: nat,
)
    requires
        stoch_period >= 1,
        k_smooth >= 1,
        d_period >= 1,
        i < rsi_values.len(),
    ensures
        ({
            let step = stoch_rsi_step_at(stoch_period, k_smooth, d_period, rsi_values, i);
            &&& step.extremes is Some <==> i >= stoch_period - 1
            &&& step.k is Some <==> step.extremes is Some
            &&& (step.k matches Some(s) && s.emits()) <==> i >= stoch_period + k_smooth - 2
            &&& step.d is Some <==> (step.k matches Some(s) && s.emits())
            &&& (step.d matches Some(s) && s.emits()) <==> i >= stoch_period + k_smooth + d_period
                - 3
        }),
{
}

/// The RSI stage emits from input `rsi_period` on, so RSI value number `i` belongs to
/// input `rsi_period + i`: counted in inputs, %K first appears at index
/// `rsi_period + stoch_period + k_smooth - 2` and %D `d_period - 1` inputs later.
pub proof fn lemma_stoch_rsi_lookbacks(params: StochRsi, rsi_values: Seq<i64>, tick: nat)
    requires
        params.spec_rsi_period() >= 1,
        params.spec_stoch_period() >= 1,
        params.spec_k_smooth() >= 1,
        params.spec_d_period() >= 1,
        tick >= params.spec_rsi_period(),
        tick - params.spec_rsi_period() < rsi_values.len(),
    ensures
        warmup_step_at(true, params.spec_rsi_period() as nat, tick).emits(),
        ({
            let step = stoch_rsi_step_at(
                params.spec_stoch_period() as nat,
                params.spec_k_smooth() as nat,
                params.spec_d_period() as nat,
                rsi_values,
                (tick - params.spec_rsi_period()) as nat,
            );
            &&& (step.k matches Some(s) && s.emits()) <==> tick >= params.spec_k_lookback()
            &&& (step.d matches Some(s) && s.emits()) <==> tick >= params.spec_d_lookback()
        }),
{
}

impl StochRsi {
    #[verifier::type_invariant]
    spec fn inv(self) -> bool {
        &&& self.rsi_period >= 1
        &&& self.stoch_period >= 1
        &&& self.k_smooth >= 1
        &&& self.d_period >= 1
    }

    /// The RSI period as a specification value.
    pub closed spec fn spec_rsi_period(&self) -> usize {
        self.rsi_period
    }

    /// The stochastic lookback as a specification value.
    pub closed spec fn spec_stoch_period(&self) -> usize {
        self.stoch_period
    }

    /// The %K smoothing period as a specification value.
    pub closed spec fn spec_k_smooth(&self) -> usize {
        self.k_smooth
    }

    /// The %D period as a specification value.
    pub closed spec fn spec_d_period(&self) -> usize {
        self.d_period
    }

    /// Index of the first %K: `rsi_period` inputs until the first RSI, then
    /// `stoch_period - 1` and `k_smooth - 1` more.
    pub open spec fn spec_k_lookback(&self) -> nat {
        (self.spec_rsi_period() + self.spec_stoch_period() + self.spec_k_smooth() - 2) as nat
    }

    /// Index of the first %D, `d_period - 1` after the first %K.
    pub open spec fn spec_d_lookback(&self) -> nat {
        (self.spec_k_lookback() + self.spec_d_period() - 1) as nat
    }

    /// Creates the parameters. A zero period is rejected; the error names the first
    /// one that is zero.
    pub fn new(rsi_period: usize, stoch_period: usize, k_smooth: usize, d_period: usize) -> (r:
        IndicatorResult<Self>)
        ensures
            stoch_rsi_rejection(rsi_period, stoch_period, k_smooth, d_period) is None ==> r is Ok
                && r->Ok_0.spec_rsi_period() == rsi_period && r->Ok_0.spec_stoch_period()
                == stoch_period && r->Ok_0.spec_k_smooth() == k_smooth && r->Ok_0.spec_d_period()
                == d_period,
            stoch_rsi_rejection(rsi_period, stoch_period, k_smooth, d_period) matches Some(
                reason,
            ) ==> r is Err && r->Err_0.is_invalid(reason),
    {
        if rsi_period == 0 {
            return Err(invalid_parameter("RSI period must be > 0"));
        }
        if stoch_period == 0 {
            return Err(invalid_parameter("Stochastic period must be > 0"));
        }
        if k_smooth == 0 {
            return Err(invalid_parameter("K smoothing period must be > 0"));
        }
        if d_period == 0 {
            return Err(invalid_parameter("D period must be > 0"));
        }
        Ok(Self { rsi_period, stoch_period, k_smooth, d_period })
    }

    /// The RSI period.
    #[verifier::when_used_as_spec(spec_rsi_period)]
    pub fn rsi_period(&self) -> (p: usize)
        ensures
            p == self.spec_rsi_period(),
            p >= 1,
    {
        proof {
            use_type_invariant(self);
        }
        self.rsi_period
    }

    /// The stochastic lookback.
    #[verifier::when_used_as_spec(spec_stoch_period)]
    pub fn stoch_period(&self) -> (p: usize)
        ensures
            p == self.spec_stoch_period(),
            p >= 1,
    {
        proof {
            use_type_invariant(self);
        }
        self.stoch_period
    }

    /// The %K smoothing period.
    #[verifier::when_used_as_spec(spec_k_smooth)]
    pub fn k_smooth(&self) -> (p: usize)
        ensures
            p == self.spec_k_smooth(),
            p >= 1,
    {
        proof {
            use_type_invariant(self);
        }
        self.k_smooth
    }

    /// The %D period.
    #[verifier::when_used_as_spec(spec_d_period)]
    pub fn d_period(&self) -> (p: usize)
        ensures
            p == self.spec_d_period(),
            p >= 1,
    {
        proof {
            use_type_invariant(self);
        }
        self.d_period
    }

    /// Index of the first %K, or `usize::MAX` where that does not fit: no input is
    /// that long.
    pub fn k_lookback(&self) -> (l: usize)
        ensures
            l == vstd::math::min(self.spec_k_lookback() as int, usize::MAX as int),
    {
        proof {
            use_type_invariant(self);
        }
        self.rsi_period.saturating_add(self.stoch_period - 1).saturating_add(self.k_smooth - 1)
    }

    /// Index of the first %D, or `usize::MAX` where that does not fit: no input is
    /// that long.
    pub fn d_lookback(&self) -> (l: usize)
        ensures
            l == vstd::math::min(self.spec_d_lookback() as int, usize::MAX as int),
    {
        proof {
            use_type_invariant(self);
        }
        self.k_lookback().saturating_add(self.d_period - 1)
    }

    /// A fresh stream for these parameters.
    pub fn stream(&self) -> (s: StochRsiStream)
        ensures
            s.params() == *self,
            s.rsi_values() == Seq::<i64>::empty(),
    {
        proof {
            use_type_invariant(self);
        }
        StochRsiStream {
            params: *self,
            range: RollingExtremes::starting(self.stoch_period),
            k: Warmup::starting(self.k_smooth, false),
            d: Warmup::starting(self.d_period, false),
        }
    }
}

/// The windowing state of a streaming stochastic RSI behind its RSI stage: the
/// extremes of the last `stoch_period` RSI values and the fill state of the two
/// averages that follow. The RSI stage itself is an RSI stream like any other; each
/// value it emits is handed to [`StochRsiStream::process_rsi`].
pub struct StochRsiStream {
    params: StochRsi,
    range: RollingExtremes,
    k: Warmup,
    d: Warmup,
}

impl StochRsiStream {
    #[verifier::type_invariant]
    spec fn inv(self) -> bool {
        let taken = self.range.highs().len();
        let raws: nat = if taken + 1 >= self.params.stoch_period {
            (taken + 1 - self.params.stoch_period) as nat
        } else {
            0
        };
        &&& self.params.inv()
        &&& self.range.spec_period() == self.params.stoch_period
        &&& self.k.spec_period() == self.params.k_smooth
        &&& self.d.spec_period() == self.params.d_period
        &&& !self.k.spec_primed() && !self.d.spec_primed()
        &&& self.range.highs() == self.range.lows()
        &&& self.k.ticks() == raws
        &&& self.d.ticks() == (if raws + 1 >= self.params.k_smooth {
            (raws + 1 - self.params.k_smooth) as nat
        } else {
            0
        })
    }

    /// The parameters the stream was made for.
    pub closed spec fn params(&self) -> StochRsi {
        self.params
    }

    /// The key of every RSI value processed since creation or the last reset.
    pub closed spec fn rsi_values(&self) -> Seq<i64> {
        self.range.highs()
    }

    /// A fresh stream. A zero period is rejected.
    pub fn new(rsi_period: usize, stoch_period: usize, k_smooth: usize, d_period: usize) -> (r:
        IndicatorResult<Self>)
        ensures
            stoch_rsi_rejection(rsi_period, stoch_period, k_smooth, d_period) is None ==> r is Ok
                && r->Ok_0.params().spec_rsi_period() == rsi_period
                && r->Ok_0.params().spec_stoch_period() == stoch_period
                && r->Ok_0.params().spec_k_smooth() == k_smooth && r->Ok_0.params().spec_d_period()
                == d_period && r->Ok_0.rsi_values() == Seq::<i64>::empty(),
            stoch_rsi_rejection(rsi_period, stoch_period, k_smooth, d_period) matches Some(
                reason,
            ) ==> r is Err && r->Err_0.is_invalid(reason),
    {
        match StochRsi::new(rsi_period, stoch_period, k_smooth, d_period) {
            Ok(params) => Ok(params.stream()),
            Err(e) => Err(e),
        }
    }

    /// The RSI period.
    pub fn rsi_period(&self) -> (p: usize)
        ensures
            p == self.params().spec_rsi_period(),
    {
        self.params.rsi_period()
    }

    /// The stochastic lookback.
    pub fn stoch_period(&self) -> (p: usize)
        ensures
            p == self.params().spec_stoch_period(),
    {
        self.params.stoch_period()
    }

    /// The %K smoothing period.
    pub fn k_smooth(&self) -> (p: usize)
        ensures
            p == self.params().spec_k_smooth(),
    {
        self.params.k_smooth()
    }

    /// The %D period.
    pub fn d_period(&self) -> (p: usize)
        ensures
            p == self.params().spec_d_period(),
    {
        self.params.d_period()
    }

    /// Consumes the key of one RSI value; returns the extremes of the window and
    /// what the two averages do with what follows.
    pub fn process_rsi(&mut self, rsi: i64) -> (step: StochRsiStep)
        ensures
            final(self).params() == old(self).params(),
            final(self).rsi_values() == old(self).rsi_values().push(rsi),
            step == stoch_rsi_step_at(
                old(self).params().spec_stoch_period() as nat,
                old(self).params().spec_k_smooth() as nat,
                old(self).params().spec_d_period() as nat,
                final(self).rsi_values(),
                old(self).rsi_values().len(),
            ),
    {
        proof {
            use_type_invariant(&*self);
        }
        let params = self.params;
        let mut taken = params.stream();
        core::mem::swap(self, &mut taken);
        let mut range = taken.range;
        let mut k = taken.k;
        let mut d = taken.d;
        let extremes = range.next(rsi, rsi);
        let mut k_step: Option<WarmupStep> = None;
        let mut d_step: Option<WarmupStep> = None;
        if extremes.is_some() {
            let s = k.next();
            k_step = Some(s);
            if s.is_emitting() {
                d_step = Some(d.next());
            }
        }
        *self = StochRsiStream { params, range, k, d };
        StochRsiStep { extremes, k: k_step, d: d_step }
    }

    /// Forgets every RSI value.
    pub fn reset(&mut self)
        ensures
            final(self).params() == old(self).params(),
            final(self).rsi_values() == Seq::<i64>::empty(),
    {
        proof {
            use_type_invariant(&*self);
        }
        *self = self.params.stream();
    }

    /// True once %D has been produced.
    pub fn is_ready(&self) -> (b: bool)
        ensures
            b == (self.rsi_values().len() + 2 >= self.params().spec_stoch_period()
                + self.params().spec_k_smooth() + self.params().spec_d_period()),
    {
        proof {
            use_type_invariant(self);
        }
        self.d.is_ready()
    }
}

impl Clone for StochRsiStream {
    /// A stream in the same state.
    fn clone(&self) -> (copy: Self)
        ensures
            copy.params() == self.params(),
            copy.rsi_values() == self.rsi_values(),
    {
        proof {
            use_type_invariant(self);
        }
        StochRsiStream { params: self.params, range: self.range.clone(), k: self.k, d: self.d }
    }
}

} // verus!
