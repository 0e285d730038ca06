//! Parameter validation and getters of every indicator.

use ta_core::indicators::{
    Adx, AnchoredVwap, Atr, Ema, Hma, Ichimoku, Macd, Mfi, PivotPoints, PivotPointsVariant, Rsi,
    Sma, Stoch, StochRsi, StochType, Wma,
};
use ta_core::{IndicatorError, OHLCV};

fn make_candles(
    data: &[(f64, f64, f64, f64, f64)],
    start_ts: i64,
    interval_ms: i64,
) -> Vec<OHLCV<f64>> {
    data.iter()
        .enumerate()
        .map(|(i, &(o, h, l, c, v))| OHLCV::new(start_ts + (i as i64) * interval_ms, o, h, l, c, v))
        .collect()
}

#[test]
fn test_adx_new_valid() {
    let adx = Adx::new(14).unwrap();
    assert_eq!(adx.period(), 14);
}

#[test]
fn test_adx_new_invalid() {
    assert!(Adx::new(0).is_err());
}

#[test]
fn test_atr_new_valid() {
    let atr = Atr::new(14).unwrap();
    assert_eq!(atr.period(), 14);
}

#[test]
fn test_atr_new_zero_period() {
    assert!(Atr::new(0).is_err());
}

#[test]
fn test_ema_new_zero_period() {
    assert!(matches!(
        Ema::new(0),
        Err(IndicatorError::InvalidParameter(_))
    ));
}

#[test]
fn test_hma_new_valid() {
    let hma = Hma::new(16).unwrap();
    assert_eq!(hma.period(), 16);
    assert_eq!(hma.half_period(), 8);
    assert_eq!(hma.sqrt_period(), 4);
}

#[test]
fn test_hma_new_various_periods() {
    // Test various periods to verify sqrt calculation
    let hma9 = Hma::new(9).unwrap();
    assert_eq!(hma9.sqrt_period(), 3); // floor(sqrt(9)) = 3

    let hma25 = Hma::new(25).unwrap();
    assert_eq!(hma25.sqrt_period(), 5); // floor(sqrt(25)) = 5

    let hma20 = Hma::new(20).unwrap();
    assert_eq!(hma20.sqrt_period(), 4); // floor(sqrt(20)) = 4
}

#[test]
fn test_hma_new_invalid() {
    assert!(Hma::new(0).is_err());
    assert!(Hma::new(1).is_err());
}

#[test]
fn test_hma_lookback() {
    let hma = Hma::new(16).unwrap();
    // period=16, half=8, sqrt=4
    // lookback = 16 + 4 - 2 = 18
    assert_eq!(hma.lookback(), 18);

    let hma = Hma::new(9).unwrap();
    // period=9, half=4, sqrt=3
    // lookback = 9 + 3 - 2 = 10
    assert_eq!(hma.lookback(), 10);
}

#[test]
fn test_ichimoku_new_valid() {
    let ich = Ichimoku::new(9, 26, 52).unwrap();
    assert_eq!(ich.tenkan_period(), 9);
    assert_eq!(ich.kijun_period(), 26);
    assert_eq!(ich.senkou_b_period(), 52);
}

#[test]
fn test_ichimoku_default_periods() {
    let ich = Ichimoku::default_periods().unwrap();
    assert_eq!(ich.tenkan_period(), 9);
    assert_eq!(ich.kijun_period(), 26);
    assert_eq!(ich.senkou_b_period(), 52);
}

#[test]
fn test_ichimoku_new_invalid() {
    assert!(Ichimoku::new(0, 26, 52).is_err());
    assert!(Ichimoku::new(9, 0, 52).is_err());
    assert!(Ichimoku::new(9, 26, 0).is_err());
}

#[test]
fn test_macd_new_valid() {
    let macd = Macd::new(12, 26, 9).unwrap();
    assert_eq!(macd.fast_period(), 12);
    assert_eq!(macd.slow_period(), 26);
    assert_eq!(macd.signal_period(), 9);
}

#[test]
fn test_macd_new_invalid_zero() {
    assert!(Macd::new(0, 26, 9).is_err());
    assert!(Macd::new(12, 0, 9).is_err());
    assert!(Macd::new(12, 26, 0).is_err());
}

#[test]
fn test_macd_new_invalid_fast_ge_slow() {
    assert!(Macd::new(26, 26, 9).is_err());
    assert!(Macd::new(30, 26, 9).is_err());
}

#[test]
fn test_mfi_new_valid() {
    let mfi = Mfi::new(14).unwrap();
    assert_eq!(mfi.period(), 14);
}

#[test]
fn test_mfi_new_invalid() {
    assert!(Mfi::new(0).is_err());
}

#[test]
fn test_constructors() {
    assert_eq!(
        PivotPoints::standard().variant(),
        PivotPointsVariant::Standard
    );
    assert_eq!(
        PivotPoints::fibonacci().variant(),
        PivotPointsVariant::Fibonacci
    );
    assert_eq!(PivotPoints::woodie().variant(), PivotPointsVariant::Woodie);
}

#[test]
fn test_rsi_new_valid() {
    let rsi = Rsi::new(14).unwrap();
    assert_eq!(rsi.period(), 14);
}

#[test]
fn test_rsi_new_zero_period() {
    assert!(matches!(
        Rsi::new(0),
        Err(IndicatorError::InvalidParameter(_))
    ));
}

#[test]
fn test_sma_new_valid() {
    assert!(Sma::new(14).is_ok());
}

#[test]
fn test_sma_new_zero_period() {
    assert!(matches!(
        Sma::new(0),
        Err(IndicatorError::InvalidParameter(_))
    ));
}

#[test]
fn test_stoch_rsi_new() {
    assert!(StochRsi::new(14, 14, 3, 3).is_ok());
    assert!(StochRsi::new(0, 14, 3, 3).is_err());
    assert!(StochRsi::new(14, 0, 3, 3).is_err());
    assert!(StochRsi::new(14, 14, 0, 3).is_err());
    assert!(StochRsi::new(14, 14, 3, 0).is_err());
}

#[test]
fn test_stoch_new() {
    assert!(Stoch::new(14, 3, StochType::Fast).is_ok());
    assert!(Stoch::new(0, 3, StochType::Fast).is_err());
    assert!(Stoch::new(14, 0, StochType::Fast).is_err());
}

#[test]
fn test_wma_new_valid() {
    let wma = Wma::new(5).unwrap();
    assert_eq!(wma.period(), 5);
}

#[test]
fn test_wma_new_zero_period() {
    assert!(matches!(
        Wma::new(0),
        Err(IndicatorError::InvalidParameter(_))
    ));
}

#[test]
fn test_anchored_vwap_from_timestamp() {
    let candles = make_candles(
        &[
            (100.0, 105.0, 99.0, 102.0, 1000.0),
            (102.0, 106.0, 101.0, 104.0, 1500.0),
            (104.0, 108.0, 103.0, 106.0, 2000.0),
        ],
        1700000000000,
        60000,
    );

    // Anchor at timestamp of second candle
    let vwap = AnchoredVwap::from_timestamp(&candles, 1700000060000).unwrap();
    assert_eq!(vwap.anchor_index(), 1);

    // Anchor at timestamp between first and second (should snap to second)
    let vwap2 = AnchoredVwap::from_timestamp(&candles, 1700000030000).unwrap();
    assert_eq!(vwap2.anchor_index(), 1);
}
