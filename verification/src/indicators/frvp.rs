//! Fixed-Range Volume Profile: volume binned by price, its point of control and its
//! value area.
//!
//! Volumes enter as ordered keys. The point of control is the heaviest bin, the
//! lowest such bin on a tie. The value area grows from it one bin at a time, towards
//! the heavier neighbour, downwards on a tie, until the caller's target volume is
//! enclosed; the order in which the bins join does not depend on that target, and
//! [`value_area_growth`] computes it.

use vstd::prelude::*;
use crate::types::{invalid_parameter, IndicatorError, IndicatorResult, OHLCV};

verus! {

/// Number of bins when the caller names none.
pub const DEFAULT_NUM_BINS: usize = 100;

/// Parameters of a volume profile: the number of bins. The value-area fraction, in
/// `[0, 1]`, is the caller's to keep.
#[derive(Debug, Clone, Copy)]
pub struct Frvp {
    num_bins: usize,
}

impl Frvp {
    #[verifier::type_invariant]
    spec fn inv(self) -> bool {
        self.num_bins >= 1
    }

    /// The number of bins as a specification value.
    pub closed spec fn spec_num_bins(&self) -> usize {
        self.num_bins
    }

    /// Creates the parameters; zero bins are rejected.
    pub fn new(num_bins: usize) -> (r: IndicatorResult<Self>)
        ensures
            num_bins > 0 ==> r is Ok && r->Ok_0.spec_num_bins() == num_bins,
            num_bins == 0 ==> r is Err && r->Err_0.is_invalid("num_bins must be at least 1"@),
    {
        if num_bins == 0 {
            return Err(invalid_parameter("num_bins must be at least 1"));
        }
        Ok(Self { num_bins })
    }

    /// The number of bins.
    #[verifier::when_used_as_spec(spec_num_bins)]
    pub fn num_bins(&self) -> (n: usize)
        ensures
            n == self.spec_num_bins(),
            n >= 1,
    {
        proof {
            use_type_invariant(self);
        }
        self.num_bins
    }

    /// A profile needs at least one bar: for no bars its result is undefined, not
    /// merely unavailable, and the call fails with `InsufficientData`.
    pub fn require_bars<P>(&self, data: &[OHLCV<P>]) -> (r: IndicatorResult<()>)
        ensures
            data@.len() > 0 ==> r is Ok,
            data@.len() == 0 ==> r == Err::<(), IndicatorError>(
                (IndicatorError::InsufficientData { required: 1, provided: 0 }),
            ),
    {
        if data.len() == 0 {
            return Err(IndicatorError::InsufficientData { required: 1, provided: 0 });
        }
        Ok(())
    }

    /// The bin a price falls into, given the number of whole bin widths between the
    /// bottom of the range and the price: that number, capped at the top bin.
    pub fn bin_index(&self, widths_above_low: usize) -> (bin: usize)
        ensures
            bin < self.spec_num_bins(),
            bin == vstd::math::min(widths_above_low as int, self.spec_num_bins() - 1),
    {
        proof {
            use_type_invariant(self);
        }
        if widths_above_low < self.num_bins {
            widths_above_low
        } else {
            self.num_bins - 1
        }
    }
}

impl Default for Frvp {
    fn default() -> (f: Self)
        ensures
            f.spec_num_bins() == DEFAULT_NUM_BINS,
    {
        Self { num_bins: DEFAULT_NUM_BINS }
    }
}

/// True when `poc` is the point of control of `volumes`: the first bin that carries
/// the greatest volume.
pub open spec fn is_point_of_control(volumes: Seq<i64>, poc: int) -> bool {
    &&& 0 <= poc < volumes.len()
    &&& forall|i: int| 0 <= i < volumes.len() ==> volumes[i] <= volumes[poc]
    &&& forall|i: int| 0 <= i < poc ==> volumes[i] < volumes[poc]
}

/// The point of control: the heaviest bin, the lowest index on a tie; `None` for no
/// bins.
pub fn point_of_control(volumes: &[i64]) -> (poc: Option<usize>)
    ensures
        poc is None <==> volumes@.len() == 0,
        poc matches Some(i) ==> is_point_of_control(volumes@, i as int),
{
    if volumes.len() == 0 {
        return None;
    }
    let mut best: usize = 0;
    let mut i: usize = 1;
    while i < volumes.len()
        invariant
            1 <= i <= volumes@.len(),
            best < i,
            forall|j: int| 0 <= j < i ==> volumes@[j] <= volumes@[best as int],
            forall|j: int| 0 <= j < best ==> volumes@[j] < volumes@[best as int],
        decreases volumes@.len() - i,
    {
        if volumes[i] > volumes[best] {
            best = i;
        }
        i += 1;
    }
    Some(best)
}

/// The bin that joins the value area `[low, high]` next: the lower neighbour when
/// there is one and it is at least as heavy as the upper one (or there is no upper
/// one), else the upper neighbour. Only meant for areas that can still grow.
pub open spec fn next_area_bin(volumes: Seq<i64>, low: int, high: int) -> int {
    if low > 0 && (high + 1 >= volumes.len() || volumes[low - 1] >= volumes[high + 1]) {
        low - 1
    } else {
        high + 1
    }
}

/// The value area after `steps` bins have joined the point of control.
pub open spec fn area_after(volumes: Seq<i64>, poc: int, steps: nat) -> (int, int)
    decreases steps,
{
    if steps == 0 {
        (poc, poc)
    } else {
        let (low, high) = area_after(volumes, poc, (steps - 1) as nat);
        let joined = next_area_bin(volumes, low, high);
        if joined < low {
            (joined, high)
        } else {
            (low, joined)
        }
    }
}

/// The value area is a range of `steps + 1` bins around the point of control, within
/// the profile as long as `steps` is below the number of bins.
pub proof fn lemma_area_is_contiguous(volumes: Seq<i64>, poc: int, steps: nat)
    requires
        0 <= poc < volumes.len(),
        steps < volumes.len(),
    ensures
        ({
            let (low, high) = area_after(volumes, poc, steps);
            &&& 0 <= low <= poc <= high < volumes.len()
            &&& high - low == steps
        }),
    decreases steps,
{
    if steps > 0 {
        lemma_area_is_contiguous(volumes, poc, (steps - 1) as nat);
    }
}

/// The value area after one more bin has joined it.
#[derive(Debug, Clone, Copy, PartialEq, Eq)]
pub struct ValueArea {
    /// The bin that joined last; the point of control for the first area.
    pub joined: usize,
    /// The lowest bin of the area.
    pub low: usize,
    /// The highest bin of the area.
    pub high: usize,
}

/// The bin that joins last to make the area of `steps + 1` bins.
pub open spec fn joined_at(volumes: Seq<i64>, poc: int, steps: nat) -> int {
    if steps == 0 {
        poc
    } else {
        let (low, high) = area_after(volumes, poc, (steps - 1) as nat);
        next_area_bin(volumes, low, high)
    }
}

/// True when `areas` is the growth of the value area around `poc`: area number `k`
/// is the range of `k + 1` bins that [`area_after`] gives, with the bin that joined
/// it last, up to the area that holds every bin.
pub open spec fn is_value_area_growth(volumes: Seq<i64>, poc: int, areas: Seq<ValueArea>) -> bool {
    &&& areas.len() == volumes.len()
    &&& forall|k: int|
        0 <= k < areas.len() ==> {
            &&& (#[trigger] areas[k]).joined == joined_at(volumes, poc, k as nat)
            &&& areas[k].low == area_after(volumes, poc, k as nat).0
            &&& areas[k].high == area_after(volumes, poc, k as nat).1
        }
}

/// How the value area grows from bin `poc`: the areas of 1, 2, ... bins, each with
/// the bin that joined it last; nothing when there is no such bin. A caller sums
/// the joined bins' volumes along the list until its target volume is enclosed.
pub fn value_area_growth(volumes: &[i64], poc: usize) -> (areas: Vec<ValueArea>)
    ensures
        poc < volumes@.len() ==> is_value_area_growth(volumes@, poc as int, areas@),
        poc >= volumes@.len() ==> areas@.len() == 0,
{
    let n = volumes.len();
    let mut areas: Vec<ValueArea> = Vec::new();
    if poc >= n {
        return areas;
    }
    areas.push(ValueArea { joined: poc, low: poc, high: poc });
    let mut low: usize = poc;
    let mut high: usize = poc;
    while areas.len() < n
        invariant
            n == volumes@.len(),
            poc < n,
            1 <= areas@.len() <= n,
            (low as int, high as int) == area_after(
                volumes@,
                poc as int,
                (areas@.len() - 1) as nat,
            ),
            low <= poc <= high < n,
            high - low == areas@.len() - 1,
            forall|k: int|
                0 <= k < areas@.len() ==> {
                    &&& (#[trigger] areas@[k]).joined == joined_at(volumes@, poc as int, k as nat)
                    &&& areas@[k].low == area_after(volumes@, poc as int, k as nat).0
                    &&& areas@[k].high == area_after(volumes@, poc as int, k as nat).1
                },
        decreases n - areas@.len(),
    {
        let ghost steps = areas@.len() as nat;
        let joined = if low > 0 && (high + 1 >= n || volumes[low - 1] >= volumes[high + 1]) {
            low - 1
        } else {
            high + 1
        };
        if joined < low {
            low = joined;
        } else {
            high = joined;
        }
        proof {
            assert(area_after(volumes@, poc as int, steps) == (low as int, high as int));
            assert(joined_at(volumes@, poc as int, steps) == joined);
        }
        areas.push(ValueArea { joined, low, high });
    }
    areas
}

/// The bars a streaming volume profile has buffered. Each new bar can widen the
/// price range, so the profile is re-evaluated over all of them; the buffer grows
/// until it is cleared.
#[derive(Debug)]
pub struct FrvpStream<P> {
    params: Frvp,
    candles: Vec<OHLCV<P>>,
}

impl<P> View for FrvpStream<P> {
    type V = Seq<OHLCV<P>>;

    closed spec fn view(&self) -> Seq<OHLCV<P>> {
        self.candles@
    }
}

impl<P: Copy> FrvpStream<P> {
    /// The parameters the stream was made for.
    pub closed spec fn params(&self) -> Frvp {
        self.params
    }

    /// An empty stream; zero bins are rejected.
    pub fn new(num_bins: usize) -> (r: IndicatorResult<Self>)
        ensures
            num_bins > 0 ==> r is Ok && r->Ok_0.params().spec_num_bins() == num_bins && r->Ok_0@
                == Seq::<OHLCV<P>>::empty(),
            num_bins == 0 ==> r is Err && r->Err_0.is_invalid("num_bins must be at least 1"@),
    {
        match Frvp::new(num_bins) {
            Ok(params) => Ok(Self { params, candles: Vec::new() }),
            Err(e) => Err(e),
        }
    }

    /// The number of bins.
    pub fn num_bins(&self) -> (n: usize)
        ensures
            n == self.params().spec_num_bins(),
    {
        self.params.num_bins()
    }

    /// Number of bars buffered.
    pub fn candle_count(&self) -> (n: usize)
        ensures
            n == self@.len(),
    {
        self.candles.len()
    }

    /// The bars buffered, oldest first.
    pub fn candles(&self) -> (bars: &Vec<OHLCV<P>>)
        ensures
            bars@ == self@,
    {
        &self.candles
    }

    /// Drops every bar.
    pub fn clear(&mut self)
        ensures
            final(self)@ == Seq::<OHLCV<P>>::empty(),
            final(self).params() == old(self).params(),
    {
        self.candles.clear();
    }

    /// Replaces the buffer by `data`.
    pub fn init(&mut self, data: &[OHLCV<P>])
        ensures
            final(self)@ == data@,
            final(self).params() == old(self).params(),
    {
        self.candles.clear();
        let mut i: usize = 0;
        while i < data.len()
            invariant
                i <= data@.len(),
                self.candles@ == data@.subrange(0, i as int),
                self.params == old(self).params,
            decreases data@.len() - i,
        {
            self.candles.push(data[i]);
            assert(self.candles@ =~= data@.subrange(0, i + 1));
            i += 1;
        }
        assert(data@.subrange(0, data@.len() as int) =~= data@);
    }

    /// Appends one bar.
    pub fn next(&mut self, candle: OHLCV<P>)
        ensures
            final(self)@ == old(self)@.push(candle),
            final(self).params() == old(self).params(),
    {
        self.candles.push(candle);
    }

    /// Drops every bar.
    pub fn reset(&mut self)
        ensures
            final(self)@ == Seq::<OHLCV<P>>::empty(),
            final(self).params() == old(self).params(),
    {
        self.candles.clear();
    }

    /// True when at least one bar is buffered.
    pub fn is_ready(&self) -> (b: bool)
        ensures
            b == (self@.len() > 0),
    {
        self.candles.len() > 0
    }
}

impl<P: Copy> Clone for FrvpStream<P> {
    /// A stream holding the same bars.
    fn clone(&self) -> (copy: Self)
        ensures
            copy@ == self@,
            copy.params() == self.params(),
    {
        let mut copy = FrvpStream { params: self.params, candles: Vec::new() };
        copy.init(self.candles.as_slice());
        copy
    }
}

} // verus!
