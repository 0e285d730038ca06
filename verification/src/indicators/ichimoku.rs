//! Ichimoku Cloud: midpoints of the highest high and lowest low over three windows.
//!
//! Tenkan, Kijun and Senkou B are each the midpoint over their own window; Senkou A
//! is the mean of Tenkan and Kijun where both exist; Chikou is the close. Plotting
//! offsets are the consumer's business.

use vstd::prelude::*;
use crate::primitives::deque::{extremes_at, RollingExtremes};
use crate::types::{invalid_parameter, IndicatorResult};

verus! {

/// Parameters of an Ichimoku cloud.
#[derive(Debug, Clone, Copy)]
pub struct Ichimoku {
    tenkan_period: usize,
    kijun_period: usize,
    senkou_b_period: usize,
}

/// The extremes each line's midpoint is taken from, for one bar.
#[derive(Debug, Clone, Copy, PartialEq, Eq)]
pub struct IchimokuStep {
    /// Highest high and lowest low over the Tenkan window; `None` in its warm-up.
    pub tenkan: Option<(i64, i64)>,
    /// Highest high and lowest low over the Kijun window; `None` in its warm-up.
    pub kijun: Option<(i64, i64)>,
    /// Highest high and lowest low over the Senkou B window; `None` in its warm-up.
    pub senkou_b: Option<(i64, i64)>,
}

/// The extremes for bar number `tick` (from 0), given the high and low keys of every
/// bar up to and including it.
pub open spec fn ichimoku_step_at(
    tenkan_period: nat,
    kijun_period: nat,
    senkou_b_period: nat,
    highs: Seq<i64>,
    lows: Seq<i64>,
    tick: nat,
) -> IchimokuStep {
    IchimokuStep {
        tenkan: extremes_at(highs, lows, tenkan_period, tick as int),
        kijun: extremes_at(highs, lows, kijun_period, tick as int),
        senkou_b: extremes_at(highs, lows, senkou_b_period, tick as int),
    }
}

/// Each line appears from the index one below its period on.
pub proof fn lemma_ichimoku_first_values(
    tenkan_period: nat,
    kijun_period: nat,
    senkou_b_period: nat,
    highs: Seq<i64>,
    lows: Seq<i64>,
    tick: nat,
)
    requires
        highs.len() == lows.len(),
        tick < highs.len(),
    ensures
        ({
            let step = ichimoku_step_at(
                tenkan_period,
                kijun_period,
                senkou_b_period,
                highs,
                lows,
                tick,
            );
            &&& step.tenkan is Some <==> tick + 1 >= tenkan_period
            &&& step.kijun is Some <==> tick + 1 >= kijun_period
            &&& step.senkou_b is Some <==> tick + 1 >= senkou_b_period
        }),
{
}

impl Ichimoku {
    #[verifier::type_invariant]
    spec fn inv(self) -> bool {
        &&& self.tenkan_period >= 1
        &&& self.kijun_period >= 1
        &&& self.senkou_b_period >= 1
    }

    /// The Tenkan period as a specification value.
    pub closed spec fn spec_tenkan_period(&self) -> usize {
        self.tenkan_period
    }

    /// The Kijun period as a specification value.
    pub closed spec fn spec_kijun_period(&self) -> usize {
        self.kijun_period
    }

    /// The Senkou B period as a specification value.
    pub closed spec fn spec_senkou_b_period(&self) -> usize {
        self.senkou_b_period
    }

    /// Creates the parameters; a zero period is rejected.
    pub fn new(tenkan_period: usize, kijun_period: usize, senkou_b_period: usize) -> (r:
        IndicatorResult<Self>)
        ensures
            tenkan_period > 0 && kijun_period > 0 && senkou_b_period > 0 ==> r is Ok
                && r->Ok_0.spec_tenkan_period() == tenkan_period && r->Ok_0.spec_kijun_period()
                == kijun_period && r->Ok_0.spec_senkou_b_period() == senkou_b_period,
            tenkan_period == 0 || kijun_period == 0 || senkou_b_period == 0 ==> r is Err
                && r->Err_0.is_invalid("all periods must be greater than 0"@),
    {
        if tenkan_period == 0 || kijun_period == 0 || senkou_b_period == 0 {
            return Err(invalid_parameter("all periods must be greater than 0"));
        }
        Ok(Self { tenkan_period, kijun_period, senkou_b_period })
    }

    /// The customary periods 9, 26 and 52.
    pub fn default_periods() -> (r: IndicatorResult<Self>)
        ensures
            r is Ok,
            r->Ok_0.spec_tenkan_period() == 9,
            r->Ok_0.spec_kijun_period() == 26,
            r->Ok_0.spec_senkou_b_period() == 52,
    {
        Self::new(9, 26, 52)
    }

    /// The Tenkan period.
    #[verifier::when_used_as_spec(spec_tenkan_period)]
    pub fn tenkan_period(&self) -> (p: usize)
        ensures
            p == self.spec_tenkan_period(),
            p >= 1,
    {
        proof {
            use_type_invariant(self);
        }
        self.tenkan_period
    }

    /// The Kijun period.
    #[verifier::when_used_as_spec(spec_kijun_period)]
    pub fn kijun_period(&self) -> (p: usize)
        ensures
            p == self.spec_kijun_period(),
            p >= 1,
    {
        proof {
            use_type_invariant(self);
        }
        self.kijun_period
    }

    /// The Senkou B period.
    #[verifier::when_used_as_spec(spec_senkou_b_period)]
    pub fn senkou_b_period(&self) -> (p: usize)
        ensures
            p == self.spec_senkou_b_period(),
            p >= 1,
    {
        proof {
            use_type_invariant(self);
        }
        self.senkou_b_period
    }

    /// A fresh stream for these parameters.
    pub fn stream(&self) -> (s: IchimokuStream)
        ensures
            s.params() == *self,
            s.highs() == Seq::<i64>::empty(),
            s.lows() == Seq::<i64>::empty(),
    {
        proof {
            use_type_invariant(self);
        }
        IchimokuStream {
            params: *self,
            tenkan: RollingExtremes::starting(self.tenkan_period),
            kijun: RollingExtremes::starting(self.kijun_period),
            senkou_b: RollingExtremes::starting(self.senkou_b_period),
        }
    }
}

/// The windowing state of a streaming Ichimoku: three pairs of monotonic deques run
/// side by side over the same bars.
pub struct IchimokuStream {
    params: Ichimoku,
    tenkan: RollingExtremes,
    kijun: RollingExtremes,
    senkou_b: RollingExtremes,
}

impl IchimokuStream {
    #[verifier::type_invariant]
    spec fn inv(self) -> bool {
        &&& self.params.inv()
        &&& self.tenkan.spec_period() == self.params.tenkan_period
        &&& self.kijun.spec_period() == self.params.kijun_period
        &&& self.senkou_b.spec_period() == self.params.senkou_b_period
        &&& self.kijun.highs() == self.tenkan.highs()
        &&& self.senkou_b.highs() == self.tenkan.highs()
        &&& self.kijun.lows() == self.tenkan.lows()
        &&& self.senkou_b.lows() == self.tenkan.lows()
        &&& self.tenkan.lows().len() == self.tenkan.highs().len()
    }

    /// The parameters the stream was made for.
    pub closed spec fn params(&self) -> Ichimoku {
        self.params
    }

    /// The high key of every bar since creation or the last reset.
    pub closed spec fn highs(&self) -> Seq<i64> {
        self.tenkan.highs()
    }

    /// The low key of every bar since creation or the last reset.
    pub closed spec fn lows(&self) -> Seq<i64> {
        self.tenkan.lows()
    }

    /// A fresh stream; a zero period is rejected.
    pub fn new(tenkan_period: usize, kijun_period: usize, senkou_b_period: usize) -> (r:
        IndicatorResult<Self>)
        ensures
            tenkan_period > 0 && kijun_period > 0 && senkou_b_period > 0 ==> r is Ok
                && r->Ok_0.params().spec_tenkan_period() == tenkan_period
                && r->Ok_0.params().spec_kijun_period() == kijun_period
                && r->Ok_0.params().spec_senkou_b_period() == senkou_b_period && r->Ok_0.highs()
                == Seq::<i64>::empty() && r->Ok_0.lows() == Seq::<i64>::empty(),
            tenkan_period == 0 || kijun_period == 0 || senkou_b_period == 0 ==> r is Err
                && r->Err_0.is_invalid("all periods must be greater than 0"@),
    {
        match Ichimoku::new(tenkan_period, kijun_period, senkou_b_period) {
            Ok(params) => Ok(params.stream()),
            Err(e) => Err(e),
        }
    }

    /// A fresh stream with the customary periods 9, 26 and 52.
    pub fn default_periods() -> (r: IndicatorResult<Self>)
        ensures
            r is Ok,
            r->Ok_0.params().spec_tenkan_period() == 9,
            r->Ok_0.params().spec_kijun_period() == 26,
            r->Ok_0.params().spec_senkou_b_period() == 52,
            r->Ok_0.highs() == Seq::<i64>::empty(),
            r->Ok_0.lows() == Seq::<i64>::empty(),
    {
        Self::new(9, 26, 52)
    }

    /// The Tenkan period.
    pub fn tenkan_period(&self) -> (p: usize)
        ensures
            p == self.params().spec_tenkan_period(),
    {
        self.params.tenkan_period()
    }

    /// The Kijun period.
    pub fn kijun_period(&self) -> (p: usize)
        ensures
            p == self.params().spec_kijun_period(),
    {
        self.params.kijun_period()
    }

    /// The Senkou B period.
    pub fn senkou_b_period(&self) -> (p: usize)
        ensures
            p == self.params().spec_senkou_b_period(),
    {
        self.params.senkou_b_period()
    }

    /// Consumes one bar's high and low keys and returns the extremes of the three
    /// windows.
    pub fn next(&mut self, high: i64, low: i64) -> (step: IchimokuStep)
        ensures
            final(self).params() == old(self).params(),
            final(self).highs() == old(self).highs().push(high),
            final(self).lows() == old(self).lows().push(low),
            step == ichimoku_step_at(
                old(self).params().spec_tenkan_period() as nat,
                old(self).params().spec_kijun_period() as nat,
                old(self).params().spec_senkou_b_period() as nat,
                final(self).highs(),
                final(self).lows(),
                old(self).highs().len(),
            ),
    {
        proof {
            use_type_invariant(&*self);
        }
        let params = self.params;
        let mut taken = params.stream();
        core::mem::swap(self, &mut taken);
        let mut tenkan = taken.tenkan;
        let mut kijun = taken.kijun;
        let mut senkou_b = taken.senkou_b;
        let tenkan_range = tenkan.next(high, low);
        let kijun_range = kijun.next(high, low);
        let senkou_b_range = senkou_b.next(high, low);
        *self = IchimokuStream { params, tenkan, kijun, senkou_b };
        IchimokuStep { tenkan: tenkan_range, kijun: kijun_range, senkou_b: senkou_b_range }
    }

    /// Forgets every bar.
    pub fn reset(&mut self)
        ensures
            final(self).params() == old(self).params(),
            final(self).highs() == Seq::<i64>::empty(),
            final(self).lows() == Seq::<i64>::empty(),
    {
        proof {
            use_type_invariant(&*self);
        }
        *self = self.params.stream();
    }

    /// True once the Senkou B window is full.
    pub fn is_ready(&self) -> (b: bool)
        ensures
            b == (self.highs().len() >= self.params().spec_senkou_b_period()),
    {
        proof {
            use_type_invariant(self);
        }
        self.senkou_b.is_ready()
    }
}

impl Clone for IchimokuStream {
    /// A stream in the same state.
    fn clone(&self) -> (copy: Self)
        ensures
            copy.params() == self.params(),
            copy.highs() == self.highs(),
            copy.lows() == self.lows(),
    {
        proof {
            use_type_invariant(self);
        }
        IchimokuStream {
            params: self.params,
            tenkan: self.tenkan.clone(),
            kijun: self.kijun.clone(),
            senkou_b: self.senkou_b.clone(),
        }
    }
}

} // verus!
