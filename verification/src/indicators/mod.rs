//! Indicator parameters and streaming schedules.

pub mod adx;
pub mod atr;
pub mod bbands;
pub mod cvd;
pub mod ema;
pub mod frvp;
pub mod hma;
pub mod ichimoku;
pub mod linreg;
pub mod macd;
pub mod mfi;
pub mod pivot_points;
pub mod rsi;
pub mod sma;
pub mod stoch_rsi;
pub mod stochastic;
pub mod vwap;
pub mod wma;

pub use adx::{Adx, AdxStep, AdxStream};
pub use atr::Atr;
pub use bbands::BBands;
pub use cvd::{Cvd, CvdOhlcv};
pub use ema::Ema;
pub use frvp::{point_of_control, value_area_growth, Frvp, FrvpStream, ValueArea};
pub use hma::{Hma, HmaStep, HmaStream};
pub use ichimoku::{Ichimoku, IchimokuStep, IchimokuStream};
pub use linreg::LinReg;
pub use macd::{Macd, MacdStep, MacdStream, SignalType};
pub use mfi::Mfi;
pub use pivot_points::{PivotPoints, PivotPointsVariant};
pub use rsi::Rsi;
pub use sma::Sma;
pub use stoch_rsi::{StochRsi, StochRsiStep, StochRsiStream};
pub use stochastic::{Stoch, StochStep, StochStream, StochType};
pub use vwap::{
    utc_day, AnchoredVwap, AnchoredVwapStream, RollingVwap, SessionVwap, SessionVwapStream,
};
pub use wma::Wma;
