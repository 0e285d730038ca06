//! Volume Weighted Average Price in three flavours: per session, over a rolling
//! window, and from an anchor.
//!
//! A session is a UTC day. The accumulators are the caller's; decided here is when
//! they are cleared, which bars enter them, and which bar leaves a rolling window.

use vstd::prelude::*;
use crate::primitives::ring::RingBuffer;
use crate::types::{invalid_parameter, IndicatorResult, OHLCV};

verus! {

/// Milliseconds in a day.
pub const MS_PER_DAY: i64 = 86_400_000;

/// The UTC day number of a millisecond timestamp: the timestamp divided by the
/// length of a day, rounded down.
pub open spec fn spec_utc_day(timestamp_ms: i64) -> int {
    timestamp_ms as int / 86_400_000
}

/// The UTC day number of a millisecond timestamp, rounded down also before the
/// epoch.
pub fn utc_day(timestamp_ms: i64) -> (day: i64)
    ensures
        day == spec_utc_day(timestamp_ms),
{
    if timestamp_ms >= 0 {
        timestamp_ms / MS_PER_DAY
    } else {
        -1 - (-1 - timestamp_ms) / MS_PER_DAY
    }
}

/// True when bar `i` opens a session: it is the first bar, or its UTC day differs
/// from the previous bar's.
pub open spec fn starts_session<P>(bars: Seq<OHLCV<P>>, i: int) -> bool {
    i == 0 || spec_utc_day(bars[i].timestamp) != spec_utc_day(bars[i - 1].timestamp)
}

/// Session VWAP; it has no parameter.
#[derive(Debug, Clone, Copy)]
pub struct SessionVwap;

impl SessionVwap {
    /// The calculator.
    pub fn new() -> (v: Self)
        ensures
            v == SessionVwap,
    {
        SessionVwap
    }

    /// For each bar, whether the accumulators are cleared before it is included.
    pub fn session_starts<P>(&self, data: &[OHLCV<P>]) -> (starts: Vec<bool>)
        ensures
            starts@.len() == data@.len(),
            forall|i: int|
                0 <= i < data@.len() ==> #[trigger] starts@[i] == starts_session(data@, i),
    {
        let mut starts: Vec<bool> = Vec::new();
        let mut i: usize = 0;
        while i < data.len()
            invariant
                i <= data@.len(),
                starts@.len() == i,
                forall|j: int| 0 <= j < i ==> #[trigger] starts@[j] == starts_session(data@, j),
            decreases data@.len() - i,
        {
            let opens = i == 0 || utc_day(data[i].timestamp) != utc_day(data[i - 1].timestamp);
            starts.push(opens);
            i += 1;
        }
        starts
    }
}

impl Default for SessionVwap {
    fn default() -> (v: Self)
        ensures
            v == SessionVwap,
    {
        SessionVwap
    }
}

/// The session-tracking state of a streaming session VWAP: the UTC day of the last
/// bar, if there was one.
#[derive(Debug, Clone, Copy)]
pub struct SessionVwapStream {
    current_day: i64,
    initialized: bool,
}

impl SessionVwapStream {
    /// The UTC day of the last bar seen, `None` before the first bar.
    pub closed spec fn last_day(&self) -> Option<int> {
        if self.initialized {
            Some(self.current_day as int)
        } else {
            None
        }
    }

    /// A stream that has seen no bar.
    pub fn new() -> (s: Self)
        ensures
            s.last_day() is None,
    {
        Self { current_day: 0, initialized: false }
    }

    /// Consumes one bar; true when it opens a session, so that the accumulators
    /// must be cleared before the bar is included.
    pub fn next<P>(&mut self, candle: &OHLCV<P>) -> (opens: bool)
        ensures
            opens == (old(self).last_day() != Some(spec_utc_day(candle.timestamp))),
            final(self).last_day() == Some(spec_utc_day(candle.timestamp)),
    {
        let day = utc_day(candle.timestamp);
        let opens = !self.initialized || day != self.current_day;
        self.current_day = day;
        self.initialized = true;
        opens
    }

    /// Forgets every bar, then consumes `data` in order; the result is what
    /// [`SessionVwap::session_starts`] gives for the same bars.
    pub fn init<P>(&mut self, data: &[OHLCV<P>]) -> (starts: Vec<bool>)
        ensures
            starts@.len() == data@.len(),
            forall|i: int|
                0 <= i < data@.len() ==> #[trigger] starts@[i] == starts_session(data@, i),
            final(self).last_day() == (if data@.len() == 0 {
                None
            } else {
                Some(spec_utc_day(data@.last().timestamp))
            }),
    {
        self.reset();
        let mut starts: Vec<bool> = Vec::new();
        let mut i: usize = 0;
        while i < data.len()
            invariant
                i <= data@.len(),
                starts@.len() == i,
                forall|j: int| 0 <= j < i ==> #[trigger] starts@[j] == starts_session(data@, j),
                self.last_day() == (if i == 0 {
                    None
                } else {
                    Some(spec_utc_day(data@[i - 1].timestamp))
                }),
            decreases data@.len() - i,
        {
            let opens = self.next(&data[i]);
            starts.push(opens);
            i += 1;
        }
        starts
    }

    /// Forgets every bar.
    pub fn reset(&mut self)
        ensures
            final(self).last_day() is None,
    {
        self.current_day = 0;
        self.initialized = false;
    }

    /// True once a bar has been seen.
    pub fn is_ready(&self) -> (b: bool)
        ensures
            b == self.last_day().is_some(),
    {
        self.initialized
    }
}

impl Default for SessionVwapStream {
    fn default() -> (s: Self)
        ensures
            s.last_day() is None,
    {
        Self::new()
    }
}

/// Parameters of a rolling VWAP over the last `period` bars.
#[derive(Debug, Clone, Copy)]
pub struct RollingVwap {
    period: usize,
}

impl RollingVwap {
    #[verifier::type_invariant]
    spec fn inv(self) -> bool {
        self.period >= 1
    }

    /// The window length as a specification value.
    pub closed spec fn spec_period(&self) -> usize {
        self.period
    }

    /// Warm-up length: the first full window ends at index `period - 1`.
    pub open spec fn spec_lookback(&self) -> nat {
        (self.spec_period() - 1) as nat
    }

    /// Creates the parameters; a zero period is rejected.
    pub fn new(period: usize) -> (r: IndicatorResult<Self>)
        ensures
            period > 0 ==> r is Ok && r->Ok_0.spec_period() == period,
            period == 0 ==> r is Err && r->Err_0.is_invalid("period must be greater than 0"@),
    {
        if period == 0 {
            return Err(invalid_parameter("period must be greater than 0"));
        }
        Ok(Self { period })
    }

    /// The window length.
    #[verifier::when_used_as_spec(spec_period)]
    pub fn period(&self) -> (p: usize)
        ensures
            p == self.spec_period(),
            p >= 1,
    {
        proof {
            use_type_invariant(self);
        }
        self.period
    }

    /// Warm-up length: the first full window ends at index `period - 1`.
    pub fn lookback(&self) -> (l: usize)
        ensures
            l == self.spec_lookback(),
    {
        proof {
            use_type_invariant(self);
        }
        self.period - 1
    }

    /// An empty window of `period` items for a stream.
    pub fn window<T: Copy>(&self) -> (w: RingBuffer<T>)
        ensures
            w.spec_capacity() == self.spec_period(),
            w@ == Seq::<T>::empty(),
    {
        proof {
            use_type_invariant(self);
        }
        RingBuffer::sized(self.period)
    }
}

/// True when some bar at or before position `i` has a timestamp at or after
/// `anchor`.
pub open spec fn reached<P>(bars: Seq<OHLCV<P>>, anchor: i64, i: int) -> bool {
    exists|j: int| 0 <= j <= i && j < bars.len() && (#[trigger] bars[j]).timestamp >= anchor
}

/// True when bar `i` enters an anchored VWAP: with a timestamp anchor, once the
/// anchor is reached; with none, from the first bar on.
pub open spec fn anchored_at<P>(bars: Seq<OHLCV<P>>, anchor: Option<i64>, i: int) -> bool {
    match anchor {
        Some(timestamp) => reached(bars, timestamp, i),
        None => true,
    }
}

/// Anchored VWAP: accumulation starts at bar `anchor_index`.
#[derive(Debug, Clone, Copy)]
pub struct AnchoredVwap {
    anchor_index: usize,
}

impl AnchoredVwap {
    /// The anchor as a specification value.
    pub closed spec fn spec_anchor_index(&self) -> usize {
        self.anchor_index
    }

    /// Anchors at the given index.
    pub fn new(anchor_index: usize) -> (v: Self)
        ensures
            v.spec_anchor_index() == anchor_index,
    {
        Self { anchor_index }
    }

    /// Anchors at the first bar whose timestamp is at or after `anchor_timestamp`;
    /// `None` when no bar is.
    pub fn from_timestamp<P>(data: &[OHLCV<P>], anchor_timestamp: i64) -> (r: Option<Self>)
        ensures
            r is None <==> forall|i: int|
                0 <= i < data@.len() ==> (#[trigger] data@[i]).timestamp < anchor_timestamp,
            r matches Some(v) ==> {
                &&& v.spec_anchor_index() < data@.len()
                &&& data@[v.spec_anchor_index() as int].timestamp >= anchor_timestamp
                &&& forall|i: int|
                    0 <= i < v.spec_anchor_index() ==> (#[trigger] data@[i]).timestamp
                        < anchor_timestamp
            },
    {
        let mut i: usize = 0;
        while i < data.len()
            invariant
                i <= data@.len(),
                forall|j: int| 0 <= j < i ==> (#[trigger] data@[j]).timestamp < anchor_timestamp,
            decreases data@.len() - i,
        {
            if data[i].timestamp >= anchor_timestamp {
                return Some(Self::new(i));
            }
            i += 1;
        }
        None
    }

    /// The index of the first bar that is accumulated.
    #[verifier::when_used_as_spec(spec_anchor_index)]
    pub fn anchor_index(&self) -> (i: usize)
        ensures
            i == self.spec_anchor_index(),
    {
        self.anchor_index
    }
}

/// A bar enters the VWAP anchored by [`AnchoredVwap::from_timestamp`] exactly when
/// a stream anchored at the same timestamp has reached its anchor.
pub proof fn lemma_anchor_index_is_first_reached<P>(
    bars: Seq<OHLCV<P>>,
    anchor: i64,
    index: int,
    i: int,
)
    requires
        0 <= index < bars.len(),
        bars[index].timestamp >= anchor,
        forall|j: int| 0 <= j < index ==> (#[trigger] bars[j]).timestamp < anchor,
        0 <= i < bars.len(),
    ensures
        reached(bars, anchor, i) <==> i >= index,
{
    if i >= index {
        assert(bars[index].timestamp >= anchor);
    }
}

/// The anchoring state of a streaming anchored VWAP.
///
/// The anchor a caller configures is a parameter of the stream and outlives a
/// reset. A stream configured with none binds its anchor to the first bar it
/// accumulates; that binding is state, and a reset undoes it.
#[derive(Debug, Clone, Copy)]
pub struct AnchoredVwapStream {
    /// The anchor the caller configured, if any.
    configured: Option<i64>,
    /// The anchor in force: the configured one, or the first accumulated bar's
    /// timestamp where none is configured.
    anchor_timestamp: Option<i64>,
    anchored: bool,
}

impl AnchoredVwapStream {
    #[verifier::type_invariant]
    spec fn inv(self) -> bool {
        match self.configured {
            Some(timestamp) => self.anchor_timestamp == Some(timestamp),
            None => self.anchor_timestamp is Some <==> self.anchored,
        }
    }

    /// The anchor the caller configured: `Some` after `with_anchor` and
    /// `set_anchor`, `None` after `new` and `anchor_now`.
    pub closed spec fn spec_configured_anchor(&self) -> Option<i64> {
        self.configured
    }

    /// The anchor timestamp in force: the configured one, or the timestamp of the
    /// first bar accumulated when the caller configured none.
    pub closed spec fn spec_anchor_timestamp(&self) -> Option<i64> {
        self.anchor_timestamp
    }

    /// True once a bar has been accumulated since the anchor was last set.
    pub closed spec fn spec_is_anchored(&self) -> bool {
        self.anchored
    }

    /// A stream that anchors at the next bar.
    pub fn new() -> (s: Self)
        ensures
            s.spec_configured_anchor() is None,
            s.spec_anchor_timestamp() is None,
            !s.spec_is_anchored(),
    {
        Self { configured: None, anchor_timestamp: None, anchored: false }
    }

    /// A stream that anchors at the first bar at or after `anchor_timestamp`.
    pub fn with_anchor(anchor_timestamp: i64) -> (s: Self)
        ensures
            s.spec_configured_anchor() == Some(anchor_timestamp),
            s.spec_anchor_timestamp() == Some(anchor_timestamp),
            !s.spec_is_anchored(),
    {
        Self {
            configured: Some(anchor_timestamp),
            anchor_timestamp: Some(anchor_timestamp),
            anchored: false,
        }
    }

    /// Moves the anchor to `timestamp`; accumulation starts over.
    pub fn set_anchor(&mut self, timestamp: i64)
        ensures
            final(self).spec_configured_anchor() == Some(timestamp),
            final(self).spec_anchor_timestamp() == Some(timestamp),
            !final(self).spec_is_anchored(),
    {
        *self = Self::with_anchor(timestamp);
    }

    /// Anchors at the next bar; accumulation starts over.
    pub fn anchor_now(&mut self)
        ensures
            final(self).spec_configured_anchor() is None,
            final(self).spec_anchor_timestamp() is None,
            !final(self).spec_is_anchored(),
    {
        *self = Self::new();
    }

    /// The anchor the caller configured, if any.
    #[verifier::when_used_as_spec(spec_configured_anchor)]
    pub fn configured_anchor(&self) -> (t: Option<i64>)
        ensures
            t == self.spec_configured_anchor(),
    {
        self.configured
    }

    /// The anchor timestamp in force. It is the configured anchor where there is
    /// one; where there is none, it exists exactly once a bar has been accumulated.
    #[verifier::when_used_as_spec(spec_anchor_timestamp)]
    pub fn anchor_timestamp(&self) -> (t: Option<i64>)
        ensures
            t == self.spec_anchor_timestamp(),
            self.spec_configured_anchor() is Some ==> t == self.spec_configured_anchor(),
            self.spec_configured_anchor() is None ==> (t is Some <==> self.spec_is_anchored()),
    {
        proof {
            use_type_invariant(self);
        }
        self.anchor_timestamp
    }

    /// Consumes one bar; true when the bar is accumulated, false while the anchor
    /// has not been reached.
    pub fn next<P>(&mut self, candle: &OHLCV<P>) -> (accumulate: bool)
        ensures
            accumulate == (old(self).spec_is_anchored() || match old(self).spec_anchor_timestamp() {
                Some(anchor) => candle.timestamp >= anchor,
                None => true,
            }),
            final(self).spec_is_anchored() == accumulate,
            final(self).spec_anchor_timestamp() == (if !old(self).spec_is_anchored() && old(
                self,
            ).spec_anchor_timestamp() is None {
                Some(candle.timestamp)
            } else {
                old(self).spec_anchor_timestamp()
            }),
            final(self).spec_configured_anchor() == old(self).spec_configured_anchor(),
    {
        proof {
            use_type_invariant(&*self);
        }
        if self.anchored {
            return true;
        }
        match self.anchor_timestamp {
            Some(anchor) => {
                if candle.timestamp >= anchor {
                    *self = Self {
                        configured: self.configured,
                        anchor_timestamp: Some(anchor),
                        anchored: true,
                    };
                    true
                } else {
                    false
                }
            },
            None => {
                *self = Self {
                    configured: None,
                    anchor_timestamp: Some(candle.timestamp),
                    anchored: true,
                };
                true
            },
        }
    }

    /// Resets the stream, then consumes `data` in order; says for each bar whether
    /// it is accumulated. The result depends on the configured anchor and the bars
    /// alone.
    pub fn init<P>(&mut self, data: &[OHLCV<P>]) -> (accumulated: Vec<bool>)
        ensures
            accumulated@.len() == data@.len(),
            forall|i: int|
                0 <= i < data@.len() ==> #[trigger] accumulated@[i] == anchored_at(
                    data@,
                    old(self).spec_configured_anchor(),
                    i,
                ),
            final(self).spec_configured_anchor() == old(self).spec_configured_anchor(),
            final(self).spec_is_anchored() == (data@.len() > 0 && anchored_at(
                data@,
                old(self).spec_configured_anchor(),
                data@.len() - 1,
            )),
            final(self).spec_anchor_timestamp() == (if old(self).spec_configured_anchor() is None
                && data@.len() > 0 {
                Some(data@[0].timestamp)
            } else {
                old(self).spec_configured_anchor()
            }),
    {
        self.reset();
        let ghost anchor = self.spec_configured_anchor();
        let mut accumulated: Vec<bool> = Vec::new();
        let mut i: usize = 0;
        while i < data.len()
            invariant
                i <= data@.len(),
                accumulated@.len() == i,
                forall|j: int|
                    0 <= j < i ==> #[trigger] accumulated@[j] == anchored_at(data@, anchor, j),
                self.spec_configured_anchor() == anchor,
                self.spec_is_anchored() == (i > 0 && anchored_at(data@, anchor, i - 1)),
                self.spec_anchor_timestamp() == (if anchor is None && i > 0 {
                    Some(data@[0].timestamp)
                } else {
                    anchor
                }),
            decreases data@.len() - i,
        {
            let enters = self.next(&data[i]);
            proof {
                match anchor {
                    Some(timestamp) => {
                        if i > 0 && reached(data@, timestamp, i - 1) {
                            let j = choose|j: int|
                                0 <= j <= i - 1 && j < data@.len() && (
                                #[trigger] data@[j]).timestamp >= timestamp;
                            assert(0 <= j <= i && data@[j].timestamp >= timestamp);
                        }
                        if data@[i as int].timestamp >= timestamp {
                            assert(reached(data@, timestamp, i as int));
                        }
                        if reached(data@, timestamp, i as int) {
                            let j = choose|j: int|
                                0 <= j <= i && j < data@.len() && (#[trigger] data@[j]).timestamp
                                    >= timestamp;
                            if j < i {
                                assert(reached(data@, timestamp, i - 1));
                            }
                        }
                    },
                    None => {},
                }
            }
            accumulated.push(enters);
            i += 1;
        }
        accumulated
    }

    /// Forgets every bar: the stream is again as it was configured, with the
    /// configured anchor in force and nothing accumulated.
    pub fn reset(&mut self)
        ensures
            final(self).spec_configured_anchor() == old(self).spec_configured_anchor(),
            final(self).spec_anchor_timestamp() == old(self).spec_configured_anchor(),
            !final(self).spec_is_anchored(),
    {
        *self = Self {
            configured: self.configured,
            anchor_timestamp: self.configured,
            anchored: false,
        };
    }

    /// True once a bar has been accumulated since the anchor was last set.
    #[verifier::when_used_as_spec(spec_is_anchored)]
    pub fn is_ready(&self) -> (b: bool)
        ensures
            b == self.spec_is_anchored(),
    {
        self.anchored
    }
}

impl Default for AnchoredVwapStream {
    fn default() -> (s: Self)
        ensures
            s.spec_configured_anchor() is None,
            s.spec_anchor_timestamp() is None,
            !s.spec_is_anchored(),
    {
        Self::new()
    }
}

} // verus!
