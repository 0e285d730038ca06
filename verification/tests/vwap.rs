//! Sessions and anchors of the VWAP family.

use ta_core::indicators::vwap::MS_PER_DAY;
use ta_core::indicators::{
    utc_day, AnchoredVwap, AnchoredVwapStream, Cvd, CvdOhlcv, RollingVwap, SessionVwap,
    SessionVwapStream,
};
use ta_core::OHLCV;

fn bar(timestamp: i64) -> OHLCV<f64> {
    OHLCV::new(timestamp, 100.0, 105.0, 99.0, 102.0, 1000.0)
}

fn bars(timestamps: &[i64]) -> Vec<OHLCV<f64>> {
    timestamps.iter().map(|&t| bar(t)).collect()
}

#[test]
fn ohlcv_new_keeps_every_field() {
    let candle = OHLCV::new(1700000000000, 100.0, 105.0, 99.0, 102.0, 1000.0);
    assert_eq!(candle.timestamp, 1700000000000);
    assert_eq!(candle.open, 100.0);
    assert_eq!(candle.high, 105.0);
    assert_eq!(candle.low, 99.0);
    assert_eq!(candle.close, 102.0);
    assert_eq!(candle.volume, 1000.0);
}

#[test]
fn utc_day_of_timestamps() {
    assert_eq!(MS_PER_DAY, 86_400_000);
    assert_eq!(utc_day(0), 0);
    assert_eq!(utc_day(86_399_999), 0);
    assert_eq!(utc_day(86_400_000), 1);
    assert_eq!(utc_day(1_700_000_000_000), 19675);
    assert_eq!(utc_day(i64::MAX), i64::MAX / 86_400_000);
}

#[test]
fn utc_day_rounds_down_before_the_epoch() {
    assert_eq!(utc_day(-1), -1);
    assert_eq!(utc_day(-86_400_000), -1);
    assert_eq!(utc_day(-86_400_001), -2);
    assert_eq!(utc_day(i64::MIN), i64::MIN.div_euclid(86_400_000));
    for t in [-200_000_000i64, -86_400_000, -5, 0, 5, 86_400_000, 200_000_000] {
        assert_eq!(utc_day(t), t.div_euclid(86_400_000));
    }
}

#[test]
fn session_starts_on_day_change() {
    // Two bars on day 0, two on day 1.
    let candles = bars(&[0, 60_000, 86_400_000, 86_460_000]);
    let starts = SessionVwap::new().session_starts(&candles);
    assert_eq!(starts, vec![true, false, true, false]);
}

#[test]
fn session_starts_on_any_transition() {
    // Going back to an earlier day opens a session too.
    let candles = bars(&[86_400_000, 0, 10, 3 * 86_400_000, 3 * 86_400_000 + 1]);
    let starts = SessionVwap::default().session_starts(&candles);
    assert_eq!(starts, vec![true, true, false, true, false]);
    assert_eq!(SessionVwap::new().session_starts(&bars(&[])), Vec::<bool>::new());
}

#[test]
fn session_stream_equals_batch() {
    let candles = bars(&[
        1_700_000_000_000,
        1_700_000_060_000,
        1_700_040_000_000,
        1_700_040_000_001,
        1_700_200_000_000,
    ]);
    let batch = SessionVwap::new().session_starts(&candles);
    let mut stream = SessionVwapStream::new();
    assert!(!stream.is_ready());
    assert_eq!(stream.init(&candles), batch);
    assert!(stream.is_ready());
    stream.reset();
    assert!(!stream.is_ready());
    let by_next: Vec<bool> = candles.iter().map(|c| stream.next(c)).collect();
    assert_eq!(by_next, batch);
    assert_eq!(batch.len(), candles.len());
}

#[test]
fn session_stream_continues_after_init() {
    let candles = bars(&[0, 60_000]);
    let mut stream = SessionVwapStream::default();
    assert_eq!(stream.init(&candles), vec![true, false]);
    assert!(!stream.next(&bar(120_000)));
    assert!(stream.next(&bar(86_400_000)));
    assert!(!stream.next(&bar(86_400_001)));
    assert_eq!(stream.init(&candles), vec![true, false]);
}

#[test]
fn rolling_vwap_rejects_zero_period() {
    assert!(RollingVwap::new(0).is_err());
}

#[test]
fn rolling_vwap_period() {
    let vwap = RollingVwap::new(5).unwrap();
    assert_eq!(vwap.period(), 5);
    assert_eq!(vwap.lookback(), 4);
}

#[test]
fn anchored_vwap_index() {
    assert_eq!(AnchoredVwap::new(3).anchor_index(), 3);
    assert_eq!(AnchoredVwap::new(0).anchor_index(), 0);
}

#[test]
fn anchored_vwap_from_timestamp_edges() {
    let candles = bars(&[100, 200, 200, 300]);
    assert_eq!(AnchoredVwap::from_timestamp(&candles, 50).unwrap().anchor_index(), 0);
    assert_eq!(AnchoredVwap::from_timestamp(&candles, 100).unwrap().anchor_index(), 0);
    assert_eq!(AnchoredVwap::from_timestamp(&candles, 101).unwrap().anchor_index(), 1);
    assert_eq!(AnchoredVwap::from_timestamp(&candles, 200).unwrap().anchor_index(), 1);
    assert_eq!(AnchoredVwap::from_timestamp(&candles, 300).unwrap().anchor_index(), 3);
    assert!(AnchoredVwap::from_timestamp(&candles, 301).is_none());
    assert!(AnchoredVwap::from_timestamp(&bars(&[]), 0).is_none());
}

#[test]
fn anchored_stream_waits_for_its_anchor() {
    let candles = bars(&[1_700_000_000_000, 1_700_000_060_000, 1_700_000_120_000]);
    let mut stream = AnchoredVwapStream::with_anchor(1_700_000_060_000);
    assert_eq!(stream.anchor_timestamp(), Some(1_700_000_060_000));
    assert!(!stream.is_ready());
    assert_eq!(stream.init(&candles), vec![false, true, true]);
    assert!(stream.is_ready());
    assert_eq!(stream.anchor_timestamp(), Some(1_700_000_060_000));
}

#[test]
fn anchored_stream_agrees_with_the_batch_anchor() {
    let candles = bars(&[10, 20, 15, 40, 5, 60]);
    for anchor in [0i64, 10, 11, 20, 21, 40, 41, 60, 61] {
        let mut stream = AnchoredVwapStream::with_anchor(anchor);
        let accumulated = stream.init(&candles);
        let expected: Vec<bool> = match AnchoredVwap::from_timestamp(&candles, anchor) {
            Some(v) => (0..candles.len()).map(|i| i >= v.anchor_index()).collect(),
            None => vec![false; candles.len()],
        };
        assert_eq!(accumulated, expected, "anchor {anchor}");
    }
}

#[test]
fn anchored_stream_stays_anchored_once_reached() {
    let mut stream = AnchoredVwapStream::with_anchor(100);
    assert!(!stream.next(&bar(50)));
    assert!(stream.next(&bar(100)));
    // An earlier timestamp after the anchor was reached is still accumulated.
    assert!(stream.next(&bar(10)));
    assert!(stream.is_ready());
}

#[test]
fn anchored_stream_binds_to_the_next_bar() {
    let mut stream = AnchoredVwapStream::new();
    stream.anchor_now();
    assert_eq!(stream.anchor_timestamp(), None);
    assert!(stream.next(&bar(1_700_000_000_000)));
    assert_eq!(stream.anchor_timestamp(), Some(1_700_000_000_000));
    assert!(stream.next(&bar(1_700_000_060_000)));
    assert_eq!(stream.anchor_timestamp(), Some(1_700_000_000_000));
}

#[test]
fn anchored_stream_set_anchor_starts_over() {
    let mut stream = AnchoredVwapStream::default();
    assert!(stream.next(&bar(10)));
    stream.set_anchor(100);
    assert!(!stream.is_ready());
    assert_eq!(stream.anchor_timestamp(), Some(100));
    assert!(!stream.next(&bar(99)));
    assert!(stream.next(&bar(100)));
    // A reset forgets the bars, not the anchor that was set.
    stream.reset();
    assert!(!stream.is_ready());
    assert_eq!(stream.configured_anchor(), Some(100));
    assert_eq!(stream.anchor_timestamp(), Some(100));
    assert!(!stream.next(&bar(99)));
    assert!(stream.next(&bar(100)));
}

#[test]
fn anchored_stream_reset_keeps_the_configured_anchor() {
    let candles = bars(&[1_700_000_000_000, 1_700_000_060_000, 1_700_000_120_000]);
    let mut stream = AnchoredVwapStream::with_anchor(1_700_000_060_000);
    let first = stream.init(&candles);
    assert_eq!(first, vec![false, true, true]);
    stream.reset();
    assert!(!stream.is_ready());
    assert_eq!(stream.configured_anchor(), Some(1_700_000_060_000));
    assert_eq!(stream.anchor_timestamp(), Some(1_700_000_060_000));
    let second = stream.init(&candles);
    assert_eq!(second, first);
}

#[test]
fn anchored_stream_reset_undoes_the_binding_to_the_first_bar() {
    let candles = bars(&[30, 10, 20]);
    let mut stream = AnchoredVwapStream::new();
    assert_eq!(stream.configured_anchor(), None);
    let first = stream.init(&candles);
    assert_eq!(stream.anchor_timestamp(), Some(30));
    assert_eq!(stream.configured_anchor(), None);
    stream.reset();
    assert!(!stream.is_ready());
    assert_eq!(stream.anchor_timestamp(), None);
    assert_eq!(stream.init(&candles), first);

    // After `anchor_now` nothing is configured either.
    let mut stream = AnchoredVwapStream::with_anchor(15);
    stream.anchor_now();
    assert_eq!(stream.configured_anchor(), None);
    assert!(stream.next(&bar(5)));
    stream.reset();
    assert_eq!(stream.anchor_timestamp(), None);
}

#[test]
fn anchored_stream_init_starts_from_the_configured_anchor() {
    // A bar seen before `init` leaves no trace in what `init` returns.
    let candles = bars(&[50, 150]);
    let mut fresh = AnchoredVwapStream::new();
    let expected = fresh.init(&candles);
    let mut used = AnchoredVwapStream::new();
    assert!(used.next(&bar(100)));
    assert_eq!(used.anchor_timestamp(), Some(100));
    assert_eq!(used.init(&candles), expected);
    assert_eq!(used.anchor_timestamp(), Some(50));

    let mut anchored = AnchoredVwapStream::with_anchor(100);
    assert!(anchored.next(&bar(200)));
    assert_eq!(anchored.init(&candles), vec![false, true]);
    assert_eq!(anchored.init(&candles), vec![false, true]);
}

#[test]
fn anchored_stream_init_without_anchor_takes_the_first_bar() {
    let candles = bars(&[30, 10, 20]);
    let mut stream = AnchoredVwapStream::new();
    assert_eq!(stream.init(&candles), vec![true, true, true]);
    assert_eq!(stream.anchor_timestamp(), Some(30));
    // The anchor is kept by a second replay.
    assert_eq!(stream.init(&candles), vec![true, true, true]);
    let mut empty = AnchoredVwapStream::new();
    assert_eq!(empty.init(&bars(&[])), Vec::<bool>::new());
    assert!(!empty.is_ready());
    assert_eq!(empty.anchor_timestamp(), None);
}

#[test]
fn cvd_calculators_have_no_parameter() {
    let _direct: Cvd = Cvd::new();
    let _default: Cvd = Cvd::default();
    let _bars: CvdOhlcv = CvdOhlcv::new();
    let _bars_default: CvdOhlcv = CvdOhlcv::default();
}
