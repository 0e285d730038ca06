//! Worked examples: float arithmetic layered on the library's schedules and windows.

use ta_core::indicators::{
    point_of_control, value_area_growth, BBands, Frvp, Rsi, SessionVwapStream,
};
use ta_core::primitives::key_of_bits;
use ta_core::primitives::warmup::WarmupStep;
use ta_core::OHLCV;

/// Order-preserving key of a float; negative zero is taken as zero.
fn volume_key(x: f64) -> i64 {
    key_of_bits((x + 0.0).to_bits())
}

fn rsi_value(avg_gain: f64, avg_loss: f64) -> f64 {
    if avg_loss == 0.0 {
        if avg_gain == 0.0 {
            50.0
        } else {
            100.0
        }
    } else {
        100.0 - (100.0 / (1.0 + avg_gain / avg_loss))
    }
}

/// RSI over `data`, driven by the library's schedule.
fn rsi_series(period: usize, data: &[f64]) -> Vec<Option<f64>> {
    let mut schedule = Rsi::new(period).unwrap().warmup();
    let n = period as f64;
    let (mut prev, mut gain_sum, mut loss_sum) = (f64::NAN, 0.0, 0.0);
    let (mut avg_gain, mut avg_loss) = (0.0, 0.0);
    let mut out = Vec::new();
    for &x in data {
        let change = x - prev;
        prev = x;
        let (gain, loss) = if change > 0.0 { (change, 0.0) } else { (0.0, -change) };
        out.push(match schedule.next() {
            WarmupStep::Prime => None,
            WarmupStep::Fill => {
                gain_sum += gain;
                loss_sum += loss;
                None
            }
            WarmupStep::First => {
                avg_gain = (gain_sum + gain) / n;
                avg_loss = (loss_sum + loss) / n;
                Some(rsi_value(avg_gain, avg_loss))
            }
            WarmupStep::Steady => {
                avg_gain = avg_gain * (1.0 - 1.0 / n) + gain / n;
                avg_loss = avg_loss * (1.0 - 1.0 / n) + loss / n;
                Some(rsi_value(avg_gain, avg_loss))
            }
        });
    }
    out
}

#[test]
fn rsi_3_on_a_rising_series_is_100() {
    let out = rsi_series(3, &[1.0, 2.0, 3.0, 4.0, 5.0]);
    assert_eq!(out, vec![None, None, None, Some(100.0), Some(100.0)]);
}

#[test]
fn rsi_3_on_a_falling_series_is_0() {
    let out = rsi_series(3, &[5.0, 4.0, 3.0, 2.0, 1.0]);
    assert_eq!(out, vec![None, None, None, Some(0.0), Some(0.0)]);
}

#[test]
fn rsi_without_movement_is_50() {
    let out = rsi_series(2, &[7.0, 7.0, 7.0, 7.0]);
    assert_eq!(out, vec![None, None, Some(50.0), Some(50.0)]);
}

#[test]
fn bollinger_3_on_constant_prices() {
    // Period 3, k = 2 on [10, 10, 10, 10, 10]: from index 2 on the bands coincide
    // at 10, %B is 0.5 and the bandwidth is 0.
    let window_params = BBands::with_period(3).unwrap();
    let mut window = window_params.window::<f64>();
    let (mut sum, mut sum_sq) = (0.0, 0.0);
    let k = 2.0;
    for (i, x) in [10.0f64; 5].into_iter().enumerate() {
        if let Some(old) = window.push(x) {
            sum -= old;
            sum_sq -= old * old;
        }
        sum += x;
        sum_sq += x * x;
        assert_eq!(window.is_full(), i >= window_params.lookback());
        if !window.is_full() {
            continue;
        }
        let mean = sum / 3.0;
        let variance = sum_sq / 3.0 - mean * mean;
        let stddev = if variance > 0.0 { variance.sqrt() } else { 0.0 };
        let (upper, lower) = (mean + k * stddev, mean - k * stddev);
        let width = upper - lower;
        let percent_b = if width == 0.0 { 0.5 } else { (x - lower) / width };
        let bandwidth = if mean == 0.0 { 0.0 } else { width / mean };
        assert_eq!((upper, mean, lower, percent_b, bandwidth), (10.0, 10.0, 10.0, 0.5, 0.0));
    }
}

#[test]
fn volume_profile_of_a_single_bar() {
    // Ten bins over one bar with high 110, low 100, volume 1000: every bin holds
    // about 100, the point of control is the lowest bin, and a value area of 70 %
    // takes the seven lowest bins.
    let frvp = Frvp::new(10).unwrap();
    let (high, low, volume) = (110.0f64, 100.0f64, 1000.0f64);
    let bin_size = (high - low) / frvp.num_bins() as f64;
    let start = frvp.bin_index(((low - low) / bin_size).floor() as usize);
    let end = frvp.bin_index(((high - low) / bin_size).floor() as usize);
    assert_eq!((start, end), (0, 9));
    let mut bins = vec![0.0f64; frvp.num_bins()];
    for bin in start..=end {
        let bin_low = low + bin as f64 * bin_size;
        let overlap = (high.min(bin_low + bin_size) - low.max(bin_low)).max(0.0);
        bins[bin] += volume * (overlap / (high - low));
    }
    for &b in &bins {
        assert!((b - 100.0).abs() < 1e-9);
    }
    let total: f64 = bins.iter().sum();
    assert!((total - 1000.0).abs() < 1e-9);

    // Equal to within rounding is not equal: compare the volumes rounded.
    let keys: Vec<i64> = bins.iter().map(|&b| volume_key(b.round())).collect();
    let poc = point_of_control(&keys).unwrap();
    assert_eq!(poc, 0);
    let areas = value_area_growth(&keys, poc);
    let order: Vec<usize> = areas.iter().map(|area| area.joined).collect();
    assert_eq!(order, vec![0, 1, 2, 3, 4, 5, 6, 7, 8, 9]);
    let target = total * 0.70;
    let (mut enclosed, mut area) = (bins[poc], 0);
    while enclosed < target && area + 1 < areas.len() {
        area += 1;
        enclosed += bins[areas[area].joined];
    }
    let (bottom, top) = (areas[area].low, areas[area].high);
    assert_eq!(bottom, 0);
    assert_eq!(top, 6);
    assert!((enclosed - 700.0).abs() < 1e-9);
}

#[test]
fn session_vwap_first_bar_of_a_day_reports_its_typical_price() {
    let candles = [
        OHLCV::new(0, 100.0, 105.0, 99.0, 102.0, 1000.0),
        OHLCV::new(60000, 102.0, 106.0, 101.0, 104.0, 1500.0),
        OHLCV::new(86400000, 50.0, 55.0, 49.0, 52.0, 2000.0),
        OHLCV::new(86460000, 52.0, 56.0, 51.0, 54.0, 1000.0),
    ];
    let mut clock = SessionVwapStream::new();
    let (mut cum_tp_vol, mut cum_vol) = (0.0f64, 0.0f64);
    let mut out: Vec<f64> = Vec::new();
    for c in &candles {
        if clock.next(c) {
            cum_tp_vol = 0.0;
            cum_vol = 0.0;
        }
        cum_tp_vol += (c.high + c.low + c.close) / 3.0 * c.volume;
        cum_vol += c.volume;
        out.push(cum_tp_vol / cum_vol);
    }
    assert!((out[0] - 102.0).abs() < 0.01);
    assert!((out[2] - 52.0).abs() < 0.01);
    let tp1: f64 = (106.0 + 101.0 + 104.0) / 3.0;
    assert!((out[1] - (102.0 * 1000.0 + tp1 * 1500.0) / 2500.0).abs() < 1e-9);
}
