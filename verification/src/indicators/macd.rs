//! Moving Average Convergence Divergence: `EMA_fast - EMA_slow`, a signal line over
//! the valid part of that difference, and their histogram.

use vstd::prelude::*;
use crate::primitives::warmup::{warmup_step_at, Warmup, WarmupStep};
use crate::types::{invalid_parameter, IndicatorResult};

verus! {

/// How the signal line averages the MACD line.
#[derive(Debug, Clone, Copy, PartialEq, Eq, Structural)]
pub enum SignalType {
    /// Exponential moving average, seeded with the mean of the first values.
    Ema,
    /// Simple moving average.
    Sma,
}

impl Default for SignalType {
    fn default() -> (t: Self)
        ensures
            t == SignalType::Ema,
    {
        SignalType::Ema
    }
}

/// Parameters of a MACD.
#[derive(Debug, Clone, Copy)]
pub struct Macd {
    fast_period: usize,
    slow_period: usize,
    signal_period: usize,
    signal_type: SignalType,
}

/// What a streaming MACD does with one input.
#[derive(Debug, Clone, Copy, PartialEq, Eq)]
pub struct MacdStep {
    /// Step of the fast EMA.
    pub fast: WarmupStep,
    /// Step of the slow EMA.
    pub slow: WarmupStep,
    /// Step of the signal average on this input's MACD value; `None` while the two
    /// EMAs do not both emit.
    pub signal: Option<WarmupStep>,
}

/// The step taken on input number `tick` (from 0).
pub open spec fn macd_step_at(fast: nat, slow: nat, signal: nat, tick: nat) -> MacdStep {
    MacdStep {
        fast: warmup_step_at(false, fast, tick),
        slow: warmup_step_at(false, slow, tick),
        signal: if tick + 1 >= slow {
            Some(warmup_step_at(false, signal, (tick + 1 - slow) as nat))
        } else {
            None
        },
    }
}

/// The MACD line is defined from index `slow - 1` on, where both EMAs emit, and the
/// signal line from index `slow + signal - 2` on.
pub proof fn lemma_macd_first_values(fast: nat, slow: nat, signal: nat, tick: nat)
    requires
        1 <= fast < slow,
        signal >= 1,
    ensures
        (macd_step_at(fast, slow, signal, tick).signal is Some) <==> (macd_step_at(
            fast,
            slow,
            signal,
            tick,
        ).fast.emits() && macd_step_at(fast, slow, signal, tick).slow.emits()),
        (macd_step_at(fast, slow, signal, tick).signal is Some) <==> tick >= slow - 1,
        (macd_step_at(fast, slow, signal, tick).signal matches Some(step) && step.emits())
            <==> tick >= slow + signal - 2,
{
}

impl Macd {
    #[verifier::type_invariant]
    spec fn inv(self) -> bool {
        &&& 1 <= self.fast_period < self.slow_period
        &&& self.signal_period >= 1
    }

    /// The fast period as a specification value.
    pub closed spec fn spec_fast_period(&self) -> usize {
        self.fast_period
    }

    /// The slow period as a specification value.
    pub closed spec fn spec_slow_period(&self) -> usize {
        self.slow_period
    }

    /// The signal period as a specification value.
    pub closed spec fn spec_signal_period(&self) -> usize {
        self.signal_period
    }

    /// The signal average as a specification value.
    pub closed spec fn spec_signal_type(&self) -> SignalType {
        self.signal_type
    }

    /// Index of the first MACD value, `slow - 1`.
    pub open spec fn spec_macd_lookback(&self) -> nat {
        (self.spec_slow_period() - 1) as nat
    }

    /// Index of the first signal value, `slow + signal - 2`.
    pub open spec fn spec_signal_lookback(&self) -> nat {
        (self.spec_slow_period() + self.spec_signal_period() - 2) as nat
    }

    /// Parameters with an exponential signal line.
    pub fn new(fast_period: usize, slow_period: usize, signal_period: usize) -> (r:
        IndicatorResult<Self>)
        ensures
            macd_rejection(fast_period, slow_period, signal_period) is None ==> r is Ok
                && r->Ok_0.spec_fast_period() == fast_period && r->Ok_0.spec_slow_period()
                == slow_period && r->Ok_0.spec_signal_period() == signal_period
                && r->Ok_0.spec_signal_type() == SignalType::Ema,
            macd_rejection(fast_period, slow_period, signal_period) matches Some(reason)
                ==> r is Err && r->Err_0.is_invalid(reason),
    {
        Self::with_signal_type(fast_period, slow_period, signal_period, SignalType::Ema)
    }

    /// Parameters with the given signal average. A zero period is rejected, and so
    /// is a fast period that is not below the slow one.
    pub fn with_signal_type(
        fast_period: usize,
        slow_period: usize,
        signal_period: usize,
        signal_type: SignalType,
    ) -> (r: IndicatorResult<Self>)
        ensures
            macd_rejection(fast_period, slow_period, signal_period) is None ==> r is Ok
                && r->Ok_0.spec_fast_period() == fast_period && r->Ok_0.spec_slow_period()
                == slow_period && r->Ok_0.spec_signal_period() == signal_period
                && r->Ok_0.spec_signal_type() == signal_type,
            macd_rejection(fast_period, slow_period, signal_period) matches Some(reason)
                ==> r is Err && r->Err_0.is_invalid(reason),
    {
        if fast_period == 0 || slow_period == 0 || signal_period == 0 {
            return Err(invalid_parameter("all periods must be greater than 0"));
        }
        if fast_period >= slow_period {
            return Err(invalid_parameter("fast_period must be less than slow_period"));
        }
        Ok(Self { fast_period, slow_period, signal_period, signal_type })
    }

    /// The fast period.
    #[verifier::when_used_as_spec(spec_fast_period)]
    pub fn fast_period(&self) -> (p: usize)
        ensures
            p == self.spec_fast_period(),
            1 <= p < self.spec_slow_period(),
    {
        proof {
            use_type_invariant(self);
        }
        self.fast_period
    }

    /// The slow period.
    #[verifier::when_used_as_spec(spec_slow_period)]
    pub fn slow_period(&self) -> (p: usize)
        ensures
            p == self.spec_slow_period(),
            p >= 2,
    {
        proof {
            use_type_invariant(self);
        }
        self.slow_period
    }

    /// The signal period.
    #[verifier::when_used_as_spec(spec_signal_period)]
    pub fn signal_period(&self) -> (p: usize)
        ensures
            p == self.spec_signal_period(),
            p >= 1,
    {
        proof {
            use_type_invariant(self);
        }
        self.signal_period
    }

    /// The signal average.
    #[verifier::when_used_as_spec(spec_signal_type)]
    pub fn signal_type(&self) -> (t: SignalType)
        ensures
            t == self.spec_signal_type(),
    {
        self.signal_type
    }

    /// Index of the first MACD value, `slow - 1`.
    pub fn macd_lookback(&self) -> (l: usize)
        ensures
            l == self.spec_macd_lookback(),
    {
        proof {
            use_type_invariant(self);
        }
        self.slow_period - 1
    }

    /// Index of the first signal value, `slow + signal - 2`, or `usize::MAX` where
    /// that does not fit: no input is that long.
    pub fn signal_lookback(&self) -> (l: usize)
        ensures
            l == vstd::math::min(self.spec_signal_lookback() as int, usize::MAX as int),
    {
        proof {
            use_type_invariant(self);
        }
        (self.slow_period - 1).saturating_add(self.signal_period - 1)
    }

    /// A fresh stream schedule for these parameters.
    pub fn stream(&self) -> (s: MacdStream)
        ensures
            s.params() == *self,
            s.ticks() == 0,
    {
        proof {
            use_type_invariant(self);
        }
        MacdStream {
            params: *self,
            fast: Warmup::starting(self.fast_period, false),
            slow: Warmup::starting(self.slow_period, false),
            signal: Warmup::starting(self.signal_period, false),
        }
    }
}

/// Why a triple of periods is rejected, if it is: the rule text of the error.
pub open spec fn macd_rejection(fast: usize, slow: usize, signal: usize) -> Option<Seq<char>> {
    if fast == 0 || slow == 0 || signal == 0 {
        Some("all periods must be greater than 0"@)
    } else if fast >= slow {
        Some("fast_period must be less than slow_period"@)
    } else {
        None
    }
}

/// The input-counting state of a streaming MACD: two EMAs feeding a signal average.
#[derive(Clone, Copy)]
pub struct MacdStream {
    params: Macd,
    fast: Warmup,
    slow: Warmup,
    signal: Warmup,
}

impl MacdStream {
    #[verifier::type_invariant]
    spec fn inv(self) -> bool {
        &&& self.params.inv()
        &&& self.fast.spec_period() == self.params.fast_period
        &&& self.slow.spec_period() == self.params.slow_period
        &&& self.signal.spec_period() == self.params.signal_period
        &&& !self.fast.spec_primed() && !self.slow.spec_primed() && !self.signal.spec_primed()
        &&& self.fast.ticks() == self.slow.ticks()
        &&& self.signal.ticks() == if self.slow.ticks() + 1 >= self.params.slow_period {
            (self.slow.ticks() + 1 - self.params.slow_period) as nat
        } else {
            0
        }
    }

    /// The parameters the schedule was made for.
    pub closed spec fn params(&self) -> Macd {
        self.params
    }

    /// Number of inputs consumed since creation or the last reset.
    pub closed spec fn ticks(&self) -> nat {
        self.slow.ticks()
    }

    /// A fresh schedule with an exponential signal line.
    pub fn new(fast_period: usize, slow_period: usize, signal_period: usize) -> (r:
        IndicatorResult<Self>)
        ensures
            macd_rejection(fast_period, slow_period, signal_period) is None ==> r is Ok
                && r->Ok_0.params().spec_fast_period() == fast_period
                && r->Ok_0.params().spec_slow_period() == slow_period
                && r->Ok_0.params().spec_signal_period() == signal_period
                && r->Ok_0.params().spec_signal_type() == SignalType::Ema && r->Ok_0.ticks() == 0,
            macd_rejection(fast_period, slow_period, signal_period) matches Some(reason)
                ==> r is Err && r->Err_0.is_invalid(reason),
    {
        Self::with_signal_type(fast_period, slow_period, signal_period, SignalType::Ema)
    }

    /// A fresh schedule with the given signal average.
    pub fn with_signal_type(
        fast_period: usize,
        slow_period: usize,
        signal_period: usize,
        signal_type: SignalType,
    ) -> (r: IndicatorResult<Self>)
        ensures
            macd_rejection(fast_period, slow_period, signal_period) is None ==> r is Ok
                && r->Ok_0.params().spec_fast_period() == fast_period
                && r->Ok_0.params().spec_slow_period() == slow_period
                && r->Ok_0.params().spec_signal_period() == signal_period
                && r->Ok_0.params().spec_signal_type() == signal_type && r->Ok_0.ticks() == 0,
            macd_rejection(fast_period, slow_period, signal_period) matches Some(reason)
                ==> r is Err && r->Err_0.is_invalid(reason),
    {
        match Macd::with_signal_type(fast_period, slow_period, signal_period, signal_type) {
            Ok(macd) => Ok(macd.stream()),
            Err(e) => Err(e),
        }
    }

    /// The fast period.
    pub fn fast_period(&self) -> (p: usize)
        ensures
            p == self.params().spec_fast_period(),
    {
        self.params.fast_period()
    }

    /// The slow period.
    pub fn slow_period(&self) -> (p: usize)
        ensures
            p == self.params().spec_slow_period(),
    {
        self.params.slow_period()
    }

    /// The signal period.
    pub fn signal_period(&self) -> (p: usize)
        ensures
            p == self.params().spec_signal_period(),
    {
        self.params.signal_period()
    }

    /// The signal average.
    pub fn signal_type(&self) -> (t: SignalType)
        ensures
            t == self.params().spec_signal_type(),
    {
        self.params.signal_type()
    }

    /// Consumes one input and says what each stage does with it.
    pub fn next(&mut self) -> (step: MacdStep)
        ensures
            step == macd_step_at(
                old(self).params().spec_fast_period() as nat,
                old(self).params().spec_slow_period() as nat,
                old(self).params().spec_signal_period() as nat,
                old(self).ticks(),
            ),
            final(self).ticks() == old(self).ticks() + 1,
            final(self).params() == old(self).params(),
    {
        proof {
            use_type_invariant(&*self);
        }
        let params = self.params;
        let mut fast = self.fast;
        let mut slow = self.slow;
        let mut signal = self.signal;
        let fast_step = fast.next();
        let slow_step = slow.next();
        let signal_step = if fast_step.is_emitting() && slow_step.is_emitting() {
            Some(signal.next())
        } else {
            None
        };
        *self = MacdStream { params, fast, slow, signal };
        MacdStep { fast: fast_step, slow: slow_step, signal: signal_step }
    }

    /// Forgets every input.
    pub fn reset(&mut self)
        ensures
            final(self).ticks() == 0,
            final(self).params() == old(self).params(),
    {
        proof {
            use_type_invariant(&*self);
        }
        let params = self.params;
        let mut fast = self.fast;
        let mut slow = self.slow;
        let mut signal = self.signal;
        fast.reset();
        slow.reset();
        signal.reset();
        *self = MacdStream { params, fast, slow, signal };
    }

    /// True once the slow EMA and the signal line have both produced a value.
    pub fn is_ready(&self) -> (b: bool)
        ensures
            b == (self.ticks() > self.params().spec_signal_lookback()),
    {
        proof {
            use_type_invariant(self);
        }
        self.slow.is_ready() && self.signal.is_ready()
    }
}

} // verus!
