//! Warm-up lengths and per-input schedules of the indicators.

use ta_core::indicators::{
    Adx, AdxStream, Atr, BBands, Ema, Frvp, Hma, HmaStream, Ichimoku, IchimokuStream, LinReg, Macd,
    MacdStream, Mfi, PivotPoints, PivotPointsVariant, RollingVwap, Rsi, SignalType, Sma, Stoch,
    StochRsi, StochRsiStream, StochStream, StochType, Wma,
};
use ta_core::primitives::warmup::WarmupStep;
use ta_core::IndicatorError;

fn reason<T>(r: Result<T, IndicatorError>) -> String {
    match r {
        Err(IndicatorError::InvalidParameter(msg)) => msg,
        Err(other) => panic!("unexpected error {other:?}"),
        Ok(_) => panic!("expected an error"),
    }
}

#[test]
fn rejection_texts() {
    assert_eq!(reason(Sma::new(0)), "period must be greater than 0");
    assert_eq!(reason(Ema::new(0)), "period must be greater than 0");
    assert_eq!(reason(Wma::new(0)), "period must be greater than 0");
    assert_eq!(reason(Rsi::new(0)), "period must be greater than 0");
    assert_eq!(reason(Atr::new(0)), "period must be greater than 0");
    assert_eq!(reason(Adx::new(0)), "period must be greater than 0");
    assert_eq!(reason(Mfi::new(0)), "period must be greater than 0");
    assert_eq!(reason(RollingVwap::new(0)), "period must be greater than 0");
    assert_eq!(reason(BBands::with_period(0)), "period must be greater than 0");
    assert_eq!(reason(Hma::new(1)), "period must be at least 2");
    assert_eq!(reason(LinReg::with_period(1)), "period must be at least 2 for regression");
    assert_eq!(reason(Frvp::new(0)), "num_bins must be at least 1");
    assert_eq!(reason(Macd::new(0, 26, 9)), "all periods must be greater than 0");
    assert_eq!(reason(Macd::new(26, 12, 9)), "fast_period must be less than slow_period");
    assert_eq!(reason(Macd::new(0, 0, 9)), "all periods must be greater than 0");
    assert_eq!(reason(Ichimoku::new(9, 0, 52)), "all periods must be greater than 0");
    assert_eq!(reason(Stoch::new(0, 0, StochType::Slow)), "k_period must be greater than 0");
    assert_eq!(reason(Stoch::new(5, 0, StochType::Slow)), "d_period must be greater than 0");
    assert_eq!(
        reason(Stoch::new_with_slowing(5, 3, 0, StochType::Slow)),
        "slowing must be greater than 0"
    );
    assert_eq!(reason(StochRsi::new(0, 0, 0, 0)), "RSI period must be > 0");
    assert_eq!(reason(StochRsi::new(14, 0, 0, 0)), "Stochastic period must be > 0");
    assert_eq!(reason(StochRsi::new(14, 14, 0, 0)), "K smoothing period must be > 0");
    assert_eq!(reason(StochRsi::new(14, 14, 3, 0)), "D period must be > 0");
}

#[test]
fn single_period_lookbacks() {
    assert_eq!(Sma::new(3).unwrap().lookback(), 2);
    assert_eq!(Ema::new(3).unwrap().lookback(), 2);
    assert_eq!(Wma::new(3).unwrap().lookback(), 2);
    assert_eq!(Atr::new(14).unwrap().lookback(), 13);
    assert_eq!(Rsi::new(3).unwrap().lookback(), 3);
    assert_eq!(Mfi::new(14).unwrap().lookback(), 14);
    assert_eq!(LinReg::with_period(20).unwrap().lookback(), 19);
    assert_eq!(RollingVwap::new(5).unwrap().lookback(), 4);
    assert_eq!(BBands::with_period(20).unwrap().lookback(), 19);
    assert_eq!(BBands::with_period(20).unwrap().period(), 20);
    assert_eq!(Sma::new(1).unwrap().lookback(), 0);
}

#[test]
fn linreg_period_bounds() {
    assert!(LinReg::with_period(0).is_err());
    assert!(LinReg::with_period(1).is_err());
    assert_eq!(LinReg::with_period(2).unwrap().period(), 2);
    assert_eq!(LinReg::with_period(20).unwrap().period(), 20);
}

#[test]
fn wma_weight_sum_is_triangular() {
    assert_eq!(Wma::new(1).unwrap().weight_sum(), 1);
    assert_eq!(Wma::new(3).unwrap().weight_sum(), 6);
    assert_eq!(Wma::new(5).unwrap().weight_sum(), 15);
    assert_eq!(Wma::new(14).unwrap().weight_sum(), 105);
}

#[test]
fn wma_3_from_window_and_weight_sum() {
    // WMA-3 on [1, 2, 3, 4, 5] is [-, -, 14/6, 20/6, 26/6].
    let wma = Wma::new(3).unwrap();
    let mut window = wma.window::<f64>();
    let divisor = wma.weight_sum() as f64;
    let mut out = Vec::new();
    for x in [1.0, 2.0, 3.0, 4.0, 5.0] {
        window.push(x);
        out.push(if window.is_full() {
            let weighted: f64 =
                window.to_vec().iter().enumerate().map(|(i, v)| v * (i + 1) as f64).sum();
            Some(weighted / divisor)
        } else {
            None
        });
    }
    assert_eq!(out, vec![None, None, Some(14.0 / 6.0), Some(20.0 / 6.0), Some(26.0 / 6.0)]);
}

#[test]
fn stream_windows_have_the_period_as_capacity() {
    assert_eq!(Sma::new(7).unwrap().window::<f64>().capacity(), 7);
    assert_eq!(Mfi::new(14).unwrap().window::<f64>().capacity(), 14);
    assert_eq!(LinReg::with_period(20).unwrap().window::<f64>().capacity(), 20);
    assert_eq!(RollingVwap::new(5).unwrap().window::<(f64, f64)>().capacity(), 5);
}

#[test]
fn rsi_schedule_needs_period_plus_one_inputs() {
    let rsi = Rsi::new(3).unwrap();
    let mut schedule = rsi.warmup();
    let emitted: Vec<bool> = (0..6).map(|_| schedule.next().is_emitting()).collect();
    assert_eq!(emitted, vec![false, false, false, true, true, true]);
    assert_eq!(emitted.iter().position(|&e| e), Some(rsi.lookback()));
}

#[test]
fn ema_and_atr_schedules_need_period_inputs() {
    let ema = Ema::new(3).unwrap();
    let mut schedule = ema.warmup();
    let steps: Vec<WarmupStep> = (0..4).map(|_| schedule.next()).collect();
    assert_eq!(
        steps,
        vec![WarmupStep::Fill, WarmupStep::Fill, WarmupStep::First, WarmupStep::Steady]
    );
    let atr = Atr::new(2).unwrap();
    let mut schedule = atr.warmup();
    assert_eq!(schedule.next(), WarmupStep::Fill);
    assert_eq!(schedule.next(), WarmupStep::First);
    assert_eq!(schedule.period(), 2);
}

#[test]
fn mfi_schedule_is_primed() {
    let mfi = Mfi::new(2).unwrap();
    let mut schedule = mfi.warmup();
    assert!(schedule.primed());
    let steps: Vec<WarmupStep> = (0..4).map(|_| schedule.next()).collect();
    assert_eq!(
        steps,
        vec![WarmupStep::Prime, WarmupStep::Fill, WarmupStep::First, WarmupStep::Steady]
    );
}

#[test]
fn adx_lookbacks() {
    let adx = Adx::new(14).unwrap();
    assert_eq!(adx.di_lookback(), 14);
    assert_eq!(adx.adx_lookback(), 27);
    let adx = Adx::new(1).unwrap();
    assert_eq!(adx.di_lookback(), 1);
    assert_eq!(adx.adx_lookback(), 1);
    assert_eq!(Adx::new(usize::MAX).unwrap().adx_lookback(), usize::MAX);
}

#[test]
fn adx_stream_period_three() {
    let mut stream = AdxStream::new(3).unwrap();
    assert_eq!(stream.period(), 3);
    let steps: Vec<(WarmupStep, Option<WarmupStep>)> = (0..8)
        .map(|_| {
            let s = stream.next();
            (s.di, s.adx)
        })
        .collect();
    assert_eq!(
        steps,
        vec![
            (WarmupStep::Prime, None),
            (WarmupStep::Fill, None),
            (WarmupStep::Fill, None),
            (WarmupStep::First, Some(WarmupStep::Fill)),
            (WarmupStep::Steady, Some(WarmupStep::Fill)),
            (WarmupStep::Steady, Some(WarmupStep::First)),
            (WarmupStep::Steady, Some(WarmupStep::Steady)),
            (WarmupStep::Steady, Some(WarmupStep::Steady)),
        ]
    );
}

#[test]
fn adx_stream_period_one_seeds_both_stages_on_the_second_bar() {
    let mut stream = AdxStream::new(1).unwrap();
    let first = stream.next();
    assert_eq!((first.di, first.adx), (WarmupStep::Prime, None));
    assert!(!stream.has_di());
    let second = stream.next();
    assert_eq!((second.di, second.adx), (WarmupStep::First, Some(WarmupStep::First)));
    assert!(stream.has_di());
    assert!(stream.is_ready());
    let third = stream.next();
    assert_eq!((third.di, third.adx), (WarmupStep::Steady, Some(WarmupStep::Steady)));
}

#[test]
fn adx_stream_first_values_stand_at_the_lookbacks() {
    for period in 1..=20usize {
        let adx = Adx::new(period).unwrap();
        let mut stream = adx.stream();
        let mut first_di = None;
        let mut first_adx = None;
        for tick in 0..60usize {
            assert_eq!(stream.has_di(), tick > period);
            assert_eq!(stream.is_ready(), tick >= 2 * period);
            let step = stream.next();
            if step.di.is_emitting() && first_di.is_none() {
                first_di = Some(tick);
            }
            if step.adx.map_or(false, |s| s.is_emitting()) && first_adx.is_none() {
                first_adx = Some(tick);
            }
        }
        assert_eq!(first_di, Some(adx.di_lookback()));
        assert_eq!(first_adx, Some(adx.adx_lookback()));
    }
}

#[test]
fn adx_stream_reset_replays_the_same_steps() {
    let mut stream = AdxStream::new(4).unwrap();
    let first: Vec<_> = (0..12).map(|_| stream.next()).collect();
    stream.reset();
    assert!(!stream.is_ready());
    assert!(!stream.has_di());
    let second: Vec<_> = (0..12).map(|_| stream.next()).collect();
    assert_eq!(first, second);
    assert!(AdxStream::new(0).is_err());
}

#[test]
fn hma_stream_first_value_stands_at_the_lookback() {
    for period in 2..=40usize {
        let hma = Hma::new(period).unwrap();
        let mut stream = hma.stream();
        let mut first_raw = None;
        let mut first = None;
        for tick in 0..80usize {
            assert_eq!(stream.is_ready(), tick > hma.lookback());
            let step = stream.next();
            assert_eq!(step.smooth.is_some(), step.half.is_emitting() && step.full.is_emitting());
            if step.smooth.is_some() && first_raw.is_none() {
                first_raw = Some(tick);
            }
            if step.smooth.map_or(false, |s| s.is_emitting()) && first.is_none() {
                first = Some(tick);
            }
        }
        assert_eq!(first_raw, Some(period - 1));
        assert_eq!(first, Some(hma.lookback()));
        assert_eq!(hma.lookback(), period + hma.sqrt_period() - 2);
    }
}

#[test]
fn hma_stream_getters_and_reset() {
    let mut stream = HmaStream::new(16).unwrap();
    assert_eq!(stream.period(), 16);
    assert_eq!(stream.half_period(), 8);
    assert_eq!(stream.sqrt_period(), 4);
    for _ in 0..19 {
        stream.next();
    }
    assert!(stream.is_ready());
    stream.reset();
    assert!(!stream.is_ready());
    let step = stream.next();
    assert_eq!((step.half, step.full, step.smooth), (WarmupStep::Fill, WarmupStep::Fill, None));
    assert!(HmaStream::new(1).is_err());
}

#[test]
fn hma_smallest_periods() {
    let hma = Hma::new(2).unwrap();
    assert_eq!((hma.half_period(), hma.sqrt_period(), hma.lookback()), (1, 1, 1));
    let hma = Hma::new(3).unwrap();
    assert_eq!((hma.half_period(), hma.sqrt_period(), hma.lookback()), (1, 1, 2));
    let hma = Hma::new(4).unwrap();
    assert_eq!((hma.half_period(), hma.sqrt_period(), hma.lookback()), (2, 2, 4));
    assert_eq!(Hma::new(usize::MAX).unwrap().lookback(), usize::MAX);
}

#[test]
fn macd_lookbacks_and_signal_type() {
    let macd = Macd::new(12, 26, 9).unwrap();
    assert_eq!(macd.macd_lookback(), 25);
    assert_eq!(macd.signal_lookback(), 33);
    assert_eq!(macd.signal_type(), SignalType::Ema);
    let macd = Macd::with_signal_type(3, 5, 2, SignalType::Sma).unwrap();
    assert_eq!(macd.signal_type(), SignalType::Sma);
    assert_eq!(macd.signal_lookback(), 5);
    assert_eq!(SignalType::default(), SignalType::Ema);
    assert_eq!(Macd::new(1, usize::MAX, usize::MAX).unwrap().signal_lookback(), usize::MAX);
}

#[test]
fn macd_stream_3_5_2() {
    let mut stream = MacdStream::new(3, 5, 2).unwrap();
    assert_eq!(
        (stream.fast_period(), stream.slow_period(), stream.signal_period()),
        (3, 5, 2)
    );
    assert_eq!(stream.signal_type(), SignalType::Ema);
    let steps: Vec<_> = (0..7)
        .map(|_| {
            let s = stream.next();
            (s.fast, s.slow, s.signal)
        })
        .collect();
    assert_eq!(
        steps,
        vec![
            (WarmupStep::Fill, WarmupStep::Fill, None),
            (WarmupStep::Fill, WarmupStep::Fill, None),
            (WarmupStep::First, WarmupStep::Fill, None),
            (WarmupStep::Steady, WarmupStep::Fill, None),
            (WarmupStep::Steady, WarmupStep::First, Some(WarmupStep::Fill)),
            (WarmupStep::Steady, WarmupStep::Steady, Some(WarmupStep::First)),
            (WarmupStep::Steady, WarmupStep::Steady, Some(WarmupStep::Steady)),
        ]
    );
    assert!(stream.is_ready());
    stream.reset();
    assert!(!stream.is_ready());
}

#[test]
fn macd_stream_first_values_stand_at_the_lookbacks() {
    for (fast, slow, signal) in [(12usize, 26usize, 9usize), (1, 2, 1), (2, 7, 5), (5, 6, 1)] {
        let macd = Macd::new(fast, slow, signal).unwrap();
        let mut stream = macd.stream();
        let mut first_macd = None;
        let mut first_signal = None;
        for tick in 0..80usize {
            assert_eq!(stream.is_ready(), tick > macd.signal_lookback());
            let step = stream.next();
            if step.signal.is_some() && first_macd.is_none() {
                first_macd = Some(tick);
            }
            if step.signal.map_or(false, |s| s.is_emitting()) && first_signal.is_none() {
                first_signal = Some(tick);
            }
        }
        assert_eq!(first_macd, Some(macd.macd_lookback()));
        assert_eq!(first_signal, Some(macd.signal_lookback()));
    }
    assert!(MacdStream::new(5, 5, 1).is_err());
    assert!(MacdStream::with_signal_type(0, 5, 1, SignalType::Sma).is_err());
}

#[test]
fn stoch_lookbacks() {
    let fast = Stoch::new(14, 3, StochType::Fast).unwrap();
    assert_eq!(fast.slowing(), 3);
    assert_eq!(fast.stoch_type(), StochType::Fast);
    assert_eq!((fast.k_lookback(), fast.d_lookback()), (13, 15));
    let slow = Stoch::new(14, 3, StochType::Slow).unwrap();
    assert_eq!((slow.k_period(), slow.d_period()), (14, 3));
    assert_eq!((slow.k_lookback(), slow.d_lookback()), (15, 17));
    let slow = Stoch::new_with_slowing(5, 4, 2, StochType::Slow).unwrap();
    assert_eq!((slow.k_lookback(), slow.d_lookback()), (5, 8));
    let huge = Stoch::new_with_slowing(usize::MAX, 2, 2, StochType::Slow).unwrap();
    assert_eq!((huge.k_lookback(), huge.d_lookback()), (usize::MAX, usize::MAX));
}

#[test]
fn stoch_stream_fast() {
    let highs = [10, 12, 11, 15, 14, 13];
    let lows = [8, 9, 7, 10, 11, 9];
    let mut stream = StochStream::new(3, 2, StochType::Fast).unwrap();
    let steps: Vec<_> = highs
        .iter()
        .zip(lows.iter())
        .map(|(&h, &l)| {
            let s = stream.next(h, l);
            (s.extremes, s.slowing, s.signal)
        })
        .collect();
    assert_eq!(
        steps,
        vec![
            (None, None, None),
            (None, None, None),
            (Some((12, 7)), None, Some(WarmupStep::Fill)),
            (Some((15, 7)), None, Some(WarmupStep::First)),
            (Some((15, 7)), None, Some(WarmupStep::Steady)),
            (Some((15, 9)), None, Some(WarmupStep::Steady)),
        ]
    );
    assert!(stream.is_ready());
}

#[test]
fn stoch_stream_slow() {
    let highs = [10, 12, 11, 15, 14, 13, 12];
    let lows = [8, 9, 7, 10, 11, 9, 8];
    let mut stream = StochStream::new_with_slowing(2, 2, 3, StochType::Slow).unwrap();
    assert_eq!(
        (stream.k_period(), stream.d_period(), stream.slowing(), stream.stoch_type()),
        (2, 2, 3, StochType::Slow)
    );
    let steps: Vec<_> = highs
        .iter()
        .zip(lows.iter())
        .map(|(&h, &l)| {
            let s = stream.next(h, l);
            (s.extremes, s.slowing, s.signal)
        })
        .collect();
    assert_eq!(
        steps,
        vec![
            (None, None, None),
            (Some((12, 8)), Some(WarmupStep::Fill), None),
            (Some((12, 7)), Some(WarmupStep::Fill), None),
            (Some((15, 7)), Some(WarmupStep::First), Some(WarmupStep::Fill)),
            (Some((15, 10)), Some(WarmupStep::Steady), Some(WarmupStep::First)),
            (Some((14, 9)), Some(WarmupStep::Steady), Some(WarmupStep::Steady)),
            (Some((13, 8)), Some(WarmupStep::Steady), Some(WarmupStep::Steady)),
        ]
    );
}

#[test]
fn stoch_stream_first_values_stand_at_the_lookbacks() {
    for stoch_type in [StochType::Fast, StochType::Slow] {
        for (k, d, slowing) in [(14usize, 3usize, 3usize), (1, 1, 1), (5, 2, 4), (3, 5, 1)] {
            let stoch = Stoch::new_with_slowing(k, d, slowing, stoch_type).unwrap();
            let mut stream = stoch.stream();
            let mut first_k = None;
            let mut first_d = None;
            for tick in 0..60usize {
                assert_eq!(stream.is_ready(), tick >= k);
                let step = stream.next(tick as i64, -(tick as i64));
                let has_k = match stoch_type {
                    StochType::Fast => step.extremes.is_some(),
                    StochType::Slow => step.slowing.map_or(false, |s| s.is_emitting()),
                };
                assert_eq!(step.signal.is_some(), has_k);
                if has_k && first_k.is_none() {
                    first_k = Some(tick);
                }
                if step.signal.map_or(false, |s| s.is_emitting()) && first_d.is_none() {
                    first_d = Some(tick);
                }
            }
            assert_eq!(first_k, Some(stoch.k_lookback()));
            assert_eq!(first_d, Some(stoch.d_lookback()));
        }
    }
}

#[test]
fn stoch_stream_reset_and_clone() {
    let mut stream = StochStream::new(2, 2, StochType::Fast).unwrap();
    let bars = [(5, 1), (7, 3), (6, 2), (9, 4)];
    let first: Vec<_> = bars.iter().map(|&(h, l)| stream.next(h, l)).collect();
    let mut copy = stream.clone();
    assert!(copy.is_ready());
    stream.reset();
    assert!(!stream.is_ready());
    let second: Vec<_> = bars.iter().map(|&(h, l)| stream.next(h, l)).collect();
    assert_eq!(first, second);
    assert_eq!(copy.next(1, 0), stream.next(1, 0));
    assert!(StochStream::new(0, 3, StochType::Fast).is_err());
}

#[test]
fn stoch_rsi_lookbacks() {
    let params = StochRsi::new(14, 14, 3, 3).unwrap();
    assert_eq!(
        (params.rsi_period(), params.stoch_period(), params.k_smooth(), params.d_period()),
        (14, 14, 3, 3)
    );
    assert_eq!((params.k_lookback(), params.d_lookback()), (29, 31));
    let params = StochRsi::new(1, 1, 1, 1).unwrap();
    assert_eq!((params.k_lookback(), params.d_lookback()), (1, 1));
    let huge = StochRsi::new(usize::MAX, 2, 2, 2).unwrap();
    assert_eq!((huge.k_lookback(), huge.d_lookback()), (usize::MAX, usize::MAX));
}

#[test]
fn stoch_rsi_stream_k_is_valid_before_d() {
    let mut stream = StochRsiStream::new(3, 2, 2, 2).unwrap();
    assert_eq!(
        (stream.rsi_period(), stream.stoch_period(), stream.k_smooth(), stream.d_period()),
        (3, 2, 2, 2)
    );
    let rsi = [50, 70, 60, 80, 40];
    let steps: Vec<_> = rsi
        .iter()
        .map(|&v| {
            let s = stream.process_rsi(v);
            (s.extremes, s.k, s.d)
        })
        .collect();
    assert_eq!(
        steps,
        vec![
            (None, None, None),
            (Some((70, 50)), Some(WarmupStep::Fill), None),
            (Some((70, 60)), Some(WarmupStep::First), Some(WarmupStep::Fill)),
            (Some((80, 60)), Some(WarmupStep::Steady), Some(WarmupStep::First)),
            (Some((80, 40)), Some(WarmupStep::Steady), Some(WarmupStep::Steady)),
        ]
    );
    assert!(stream.is_ready());
}

#[test]
fn stoch_rsi_stream_first_values_stand_at_the_lookbacks() {
    let cases: [(usize, usize, usize, usize); 4] =
        [(14, 14, 3, 3), (1, 1, 1, 1), (2, 5, 1, 4), (3, 1, 4, 2)];
    for (p, q, s, d) in cases {
        let params = StochRsi::new(p, q, s, d).unwrap();
        let mut rsi_stage = Rsi::new(p).unwrap().warmup();
        let mut stream = params.stream();
        let mut first_k = None;
        let mut first_d = None;
        for tick in 0..80usize {
            if !rsi_stage.next().is_emitting() {
                continue;
            }
            let step = stream.process_rsi((tick % 7) as i64);
            if step.k.map_or(false, |x| x.is_emitting()) && first_k.is_none() {
                first_k = Some(tick);
            }
            if step.d.map_or(false, |x| x.is_emitting()) && first_d.is_none() {
                first_d = Some(tick);
            }
        }
        assert_eq!(first_k, Some(params.k_lookback()));
        assert_eq!(first_d, Some(params.d_lookback()));
    }
}

#[test]
fn stoch_rsi_stream_reset_and_clone() {
    let mut stream = StochRsiStream::new(3, 2, 1, 1).unwrap();
    let values = [10, 30, 20, 40];
    let first: Vec<_> = values.iter().map(|&v| stream.process_rsi(v)).collect();
    let mut copy = stream.clone();
    stream.reset();
    assert!(!stream.is_ready());
    let second: Vec<_> = values.iter().map(|&v| stream.process_rsi(v)).collect();
    assert_eq!(first, second);
    assert_eq!(copy.process_rsi(5), stream.process_rsi(5));
    assert!(StochRsiStream::new(3, 0, 1, 1).is_err());
}

#[test]
fn ichimoku_stream_three_windows() {
    let highs = [10, 12, 11, 15, 14];
    let lows = [8, 9, 7, 10, 11];
    let mut stream = IchimokuStream::new(1, 2, 4).unwrap();
    assert_eq!(
        (stream.tenkan_period(), stream.kijun_period(), stream.senkou_b_period()),
        (1, 2, 4)
    );
    let steps: Vec<_> = highs
        .iter()
        .zip(lows.iter())
        .map(|(&h, &l)| {
            let ready_before = stream.is_ready();
            let s = stream.next(h, l);
            (s.tenkan, s.kijun, s.senkou_b, ready_before)
        })
        .collect();
    assert_eq!(
        steps,
        vec![
            (Some((10, 8)), None, None, false),
            (Some((12, 9)), Some((12, 8)), None, false),
            (Some((11, 7)), Some((12, 7)), None, false),
            (Some((15, 10)), Some((15, 7)), Some((15, 7)), false),
            (Some((14, 11)), Some((15, 10)), Some((15, 7)), true),
        ]
    );
    assert!(stream.is_ready());
}

#[test]
fn ichimoku_stream_default_reset_and_clone() {
    let mut stream = IchimokuStream::default_periods().unwrap();
    assert_eq!(
        (stream.tenkan_period(), stream.kijun_period(), stream.senkou_b_period()),
        (9, 26, 52)
    );
    for i in 0..52 {
        let step = stream.next(i, -i);
        assert_eq!(step.tenkan.is_some(), i >= 8);
        assert_eq!(step.kijun.is_some(), i >= 25);
        assert_eq!(step.senkou_b.is_some(), i >= 51);
    }
    assert!(stream.is_ready());
    let mut copy = stream.clone();
    assert_eq!(copy.next(100, -100), stream.next(100, -100));
    stream.reset();
    assert!(!stream.is_ready());
    assert!(copy.is_ready());
    assert!(IchimokuStream::new(9, 26, 0).is_err());
}

#[test]
fn pivot_points_default_variant() {
    assert_eq!(PivotPointsVariant::default(), PivotPointsVariant::Standard);
    assert_eq!(PivotPoints::default().variant(), PivotPointsVariant::Standard);
    assert_eq!(
        PivotPoints::new(PivotPointsVariant::Woodie).variant(),
        PivotPointsVariant::Woodie
    );
}
