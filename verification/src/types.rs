//! Core data types: the market bar and the error taxonomy.

use vstd::prelude::*;
use crate::numeric::{append_decimal, decimal_digits};

verus! {

/// One bar of market data. The price type `P` is left to the caller; the library
/// itself only ever reads the timestamp.
#[derive(Debug, Clone, Copy, PartialEq)]
pub struct OHLCV<P> {
    /// Unix timestamp in milliseconds (UTC).
    pub timestamp: i64,
    /// Opening price.
    pub open: P,
    /// Highest price.
    pub high: P,
    /// Lowest price.
    pub low: P,
    /// Closing price.
    pub close: P,
    /// Traded volume.
    pub volume: P,
}

impl<P> OHLCV<P> {
    /// Builds a bar from its six fields.
    pub fn new(timestamp: i64, open: P, high: P, low: P, close: P, volume: P) -> (bar: Self)
        ensures
            bar == (OHLCV { timestamp, open, high, low, close, volume }),
    {
        OHLCV { timestamp, open, high, low, close, volume }
    }
}

/// Result of an indicator operation.
pub type IndicatorResult<T> = Result<T, IndicatorError>;

/// The three ways an indicator operation can fail.
#[derive(Debug, Clone, PartialEq)]
pub enum IndicatorError {
    /// The result is undefined for so little data.
    InsufficientData { required: usize, provided: usize },
    /// A parameter is outside its domain; the text names the violated rule.
    InvalidParameter(String),
    /// A stream was queried before it saw any data.
    NotInitialized,
}

impl IndicatorError {
    /// The rule text of an `InvalidParameter`, the empty text for the other kinds.
    pub open spec fn reason(self) -> Seq<char> {
        match self {
            IndicatorError::InvalidParameter(msg) => msg@,
            _ => Seq::empty(),
        }
    }

    /// True for `InvalidParameter` carrying exactly the text `reason`.
    pub open spec fn is_invalid(self, reason: Seq<char>) -> bool {
        self is InvalidParameter && self.reason() == reason
    }

    /// The text shown to a user for this error.
    pub open spec fn spec_message(self) -> Seq<char> {
        match self {
            IndicatorError::InsufficientData { required, provided } => {
                "Insufficient data: required "@ + decimal_digits(required as nat) + ", provided "@
                    + decimal_digits(provided as nat)
            },
            IndicatorError::InvalidParameter(msg) => "Invalid parameter: "@ + msg@,
            IndicatorError::NotInitialized => "Indicator not initialized"@,
        }
    }

    /// The text shown to a user for this error.
    pub fn message(&self) -> (text: String)
        ensures
            text@ == self.spec_message(),
    {
        match self {
            IndicatorError::InsufficientData { required, provided } => {
                let mut text = "Insufficient data: required ".to_string();
                append_decimal(&mut text, *required);
                text.append(", provided ");
                append_decimal(&mut text, *provided);
                text
            },
            IndicatorError::InvalidParameter(msg) => {
                let mut text = "Invalid parameter: ".to_string();
                text.append(msg.as_str());
                text
            },
            IndicatorError::NotInitialized => "Indicator not initialized".to_string(),
        }
    }
}

/// The rule text of a length mismatch among high, low and close series.
pub open spec fn ohlc_mismatch() -> Seq<char> {
    "highs, lows, and closes must have the same length"@
}

/// The rule text of a length mismatch among high, low, close and volume series.
pub open spec fn ohlcv_mismatch() -> Seq<char> {
    "all arrays must have the same length"@
}

/// The common length of three parallel series; a mismatch is an invalid parameter.
pub fn aligned_len<T>(highs: &[T], lows: &[T], closes: &[T]) -> (r: IndicatorResult<usize>)
    ensures
        highs@.len() == lows@.len() && lows@.len() == closes@.len() ==> r == Ok::<
            usize,
            IndicatorError,
        >(highs@.len() as usize),
        !(highs@.len() == lows@.len() && lows@.len() == closes@.len()) ==> r is Err
            && r->Err_0.is_invalid(ohlc_mismatch()),
{
    let len = highs.len();
    if lows.len() != len || closes.len() != len {
        return Err(invalid_parameter("highs, lows, and closes must have the same length"));
    }
    Ok(len)
}

/// The common length of four parallel series; a mismatch is an invalid parameter.
pub fn aligned_len_with_volume<T>(highs: &[T], lows: &[T], closes: &[T], volumes: &[T]) -> (r:
    IndicatorResult<usize>)
    ensures
        highs@.len() == lows@.len() && lows@.len() == closes@.len() && closes@.len()
            == volumes@.len() ==> r == Ok::<usize, IndicatorError>(highs@.len() as usize),
        !(highs@.len() == lows@.len() && lows@.len() == closes@.len() && closes@.len()
            == volumes@.len()) ==> r is Err && r->Err_0.is_invalid(ohlcv_mismatch()),
{
    let len = highs.len();
    if lows.len() != len || closes.len() != len || volumes.len() != len {
        return Err(invalid_parameter("all arrays must have the same length"));
    }
    Ok(len)
}

/// An `InvalidParameter` error carrying `reason`.
pub fn invalid_parameter(reason: &str) -> (e: IndicatorError)
    ensures
        e.is_invalid(reason@),
{
    IndicatorError::InvalidParameter(reason.to_string())
}

} // verus!
