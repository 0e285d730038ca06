//! Verified kernel of a technical-analysis indicator library.
//!
//! Every indicator runs in two modes, over a whole array (batch) or one element at a
//! time (streaming), and the two must agree on *where* values appear: which output
//! positions still belong to the warm-up, when a smoothing chain is seeded, which
//! element leaves a sliding window. This crate holds that discipline, proved with
//! Verus: parameter validation, warm-up lengths, the per-element schedule of every
//! stream, and the window primitives (ring buffer, monotonic deques) with their
//! functional contracts.
//!
//! Values are the caller's. Windows are generic over what they hold, extrema compare
//! integer keys (`primitives::keys` gives the key of an IEEE 754 double), and a
//! stream's schedule says, for every input, which accumulation step is due. The
//! floating-point arithmetic that turns a schedule into prices is layered on top.

pub mod indicators;
pub mod numeric;
pub mod primitives;
pub mod traits;
pub mod types;

pub use traits::{Indicator, StreamingIndicator};
pub use types::{aligned_len, aligned_len_with_volume, IndicatorError, IndicatorResult, OHLCV};
