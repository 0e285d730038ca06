//! Point of control, value area and buffering of the volume profile.

use ta_core::indicators::frvp::DEFAULT_NUM_BINS;
use ta_core::indicators::{point_of_control, value_area_growth, Frvp, FrvpStream, ValueArea};
use ta_core::{IndicatorError, OHLCV};

fn make_candle(high: f64, low: f64, close: f64, volume: f64) -> OHLCV<f64> {
    OHLCV::new(0, low, high, low, close, volume)
}

/// The bins in the order in which they join the value area around `poc`.
fn value_area_order(volumes: &[i64], poc: usize) -> Vec<usize> {
    value_area_growth(volumes, poc).iter().map(|area| area.joined).collect()
}

/// The value area for a target volume, grown along `value_area_growth`.
fn value_area(volumes: &[i64], target: i64) -> (usize, usize, i64) {
    let poc = point_of_control(volumes).unwrap();
    let areas = value_area_growth(volumes, poc);
    let (mut area, mut enclosed) = (0, volumes[poc]);
    while enclosed < target && area + 1 < areas.len() {
        area += 1;
        enclosed += volumes[areas[area].joined];
    }
    (areas[area].low, areas[area].high, enclosed)
}

#[test]
fn frvp_bins() {
    assert!(Frvp::new(0).is_err());
    assert_eq!(Frvp::new(10).unwrap().num_bins(), 10);
    assert_eq!(Frvp::default().num_bins(), 100);
    assert_eq!(DEFAULT_NUM_BINS, 100);
}

#[test]
fn frvp_bin_index_is_capped_at_the_top_bin() {
    let frvp = Frvp::new(10).unwrap();
    assert_eq!(frvp.bin_index(0), 0);
    assert_eq!(frvp.bin_index(4), 4);
    assert_eq!(frvp.bin_index(9), 9);
    assert_eq!(frvp.bin_index(10), 9);
    assert_eq!(frvp.bin_index(usize::MAX), 9);
    assert_eq!(Frvp::new(1).unwrap().bin_index(3), 0);
}

#[test]
fn point_of_control_is_the_heaviest_bin() {
    assert_eq!(point_of_control(&[1, 5, 3]), Some(1));
    assert_eq!(point_of_control(&[9]), Some(0));
    assert_eq!(point_of_control(&[1, 2, 3, 4]), Some(3));
    assert_eq!(point_of_control(&[]), None);
}

#[test]
fn point_of_control_tie_goes_to_the_lowest_bin() {
    assert_eq!(point_of_control(&[2, 7, 7, 1, 7]), Some(1));
    assert_eq!(point_of_control(&[0, 0, 0]), Some(0));
    // Ten equal bins, as for one bar spread evenly over the range.
    assert_eq!(point_of_control(&[100; 10]), Some(0));
}

#[test]
fn value_area_order_prefers_the_heavier_neighbour() {
    //            0  1  2   3  4  5
    let volumes = [1, 4, 10, 6, 5, 2];
    let order = value_area_order(&volumes, 2);
    // 6 > 4: up; 5 > 4: up; 4 > 2: down; 2 > 1: up; then down.
    assert_eq!(order, vec![2, 3, 4, 1, 5, 0]);
}

#[test]
fn value_area_order_tie_goes_down() {
    let volumes = [3, 5, 9, 5, 3];
    assert_eq!(value_area_order(&volumes, 2), vec![2, 1, 3, 0, 4]);
}

#[test]
fn value_area_order_at_the_edges() {
    assert_eq!(value_area_order(&[9, 1, 2, 3], 0), vec![0, 1, 2, 3]);
    assert_eq!(value_area_order(&[3, 2, 1, 9], 3), vec![3, 2, 1, 0]);
    assert_eq!(value_area_order(&[7], 0), vec![0]);
    // Down is taken when nothing is above, whatever the volumes.
    assert_eq!(value_area_order(&[-5, 0, 8], 2), vec![2, 1, 0]);
}

#[test]
fn value_area_growth_without_a_starting_bin_is_empty() {
    assert_eq!(value_area_growth(&[1, 2, 3], 3), Vec::<ValueArea>::new());
    assert_eq!(value_area_growth(&[], 0), Vec::<ValueArea>::new());
}

#[test]
fn value_area_growth_reports_each_area() {
    let volumes = [1, 4, 10, 6, 5, 2];
    assert_eq!(
        value_area_growth(&volumes, 2),
        vec![
            ValueArea { joined: 2, low: 2, high: 2 },
            ValueArea { joined: 3, low: 2, high: 3 },
            ValueArea { joined: 4, low: 2, high: 4 },
            ValueArea { joined: 1, low: 1, high: 4 },
            ValueArea { joined: 5, low: 1, high: 5 },
            ValueArea { joined: 0, low: 0, high: 5 },
        ]
    );
}

#[test]
fn value_area_grows_until_the_target_is_enclosed() {
    let volumes = [1, 4, 10, 6, 5, 2];
    // Total 28, target 70 % = 19.6, taken as 20.
    assert_eq!(value_area(&volumes, 20), (2, 4, 21));
    assert_eq!(value_area(&volumes, 10), (2, 2, 10));
    assert_eq!(value_area(&volumes, 0), (2, 2, 10));
    assert_eq!(value_area(&volumes, 22), (1, 4, 25));
    assert_eq!(value_area(&volumes, 28), (0, 5, 28));
    // A target beyond the total takes every bin and stops.
    assert_eq!(value_area(&volumes, 1000), (0, 5, 28));
}

#[test]
fn value_area_of_an_even_profile() {
    // One bar spread evenly over ten bins: 100 each, total 1000, target 700.
    let volumes = [100i64; 10];
    assert_eq!(volumes.iter().sum::<i64>(), 1000);
    assert_eq!(value_area(&volumes, 700), (0, 6, 700));
}

#[test]
fn value_area_is_always_a_range_around_the_point_of_control() {
    let volumes = [3, 8, 2, 8, 1, 0, 4, 4, 9, 9, 2];
    for poc in 0..volumes.len() {
        let areas = value_area_growth(&volumes, poc);
        assert_eq!(areas.len(), volumes.len());
        assert_eq!(areas[0], ValueArea { joined: poc, low: poc, high: poc });
        for k in 1..areas.len() {
            let (before, after) = (areas[k - 1], areas[k]);
            assert!(after.low <= poc && poc <= after.high);
            assert_eq!(after.high - after.low, k);
            if after.joined + 1 == before.low {
                assert_eq!((after.low, after.high), (after.joined, before.high));
            } else {
                assert_eq!(after.joined, before.high + 1);
                assert_eq!((after.low, after.high), (before.low, after.joined));
            }
        }
        let last = areas[areas.len() - 1];
        assert_eq!((last.low, last.high), (0, volumes.len() - 1));
    }
}

#[test]
fn frvp_stream_buffers_bars() {
    let mut stream = FrvpStream::new(10).unwrap();
    assert_eq!(stream.num_bins(), 10);
    let candles = vec![
        make_candle(105.0, 100.0, 102.0, 1000.0),
        make_candle(110.0, 105.0, 108.0, 2000.0),
    ];
    assert!(!stream.is_ready());
    stream.init(&candles);
    assert!(stream.is_ready());
    assert_eq!(stream.candle_count(), 2);
    let new_candle = make_candle(112.0, 108.0, 110.0, 1500.0);
    stream.next(new_candle);
    assert_eq!(stream.candle_count(), 3);
    let total: f64 = stream.candles().iter().map(|c| c.volume).sum();
    assert!((total - 4500.0).abs() < 0.01);
    assert_eq!(stream.candles()[2], new_candle);
}

#[test]
fn frvp_stream_clear_reset_and_clone() {
    let mut stream = FrvpStream::new(5).unwrap();
    stream.next(make_candle(2.0, 1.0, 1.5, 10.0));
    stream.next(make_candle(3.0, 2.0, 2.5, 20.0));
    let copy = stream.clone();
    stream.clear();
    assert!(!stream.is_ready());
    assert_eq!(stream.candle_count(), 0);
    assert_eq!(copy.candle_count(), 2);
    assert_eq!(copy.num_bins(), 5);
    stream.next(make_candle(2.0, 1.0, 1.5, 10.0));
    stream.reset();
    assert_eq!(stream.candle_count(), 0);
    stream.init(&[]);
    assert!(!stream.is_ready());
    assert!(FrvpStream::<f64>::new(0).is_err());
}

#[test]
fn frvp_needs_at_least_one_bar() {
    let frvp = Frvp::new(10).unwrap();
    let none: [OHLCV<f64>; 0] = [];
    assert_eq!(
        frvp.require_bars(&none),
        Err(IndicatorError::InsufficientData { required: 1, provided: 0 })
    );
    assert_eq!(frvp.require_bars(&[make_candle(110.0, 100.0, 105.0, 1000.0)]), Ok(()));
}
