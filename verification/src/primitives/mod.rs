//! Incremental building blocks shared by the indicators.

pub mod deque;
pub mod extrema;
pub mod keys;
pub mod ring;
pub mod warmup;

pub use deque::{RollingExtremes, RollingMax, RollingMin};
pub use extrema::{window_maxima, window_minima};
pub use keys::{bits_of_key, key_of_bits};
pub use ring::RingBuffer;
pub use warmup::{Warmup, WarmupStep};
