//! Hann windows: validation of window lengths, symmetric generation from a
//! per-sample coefficient, and fixed-key caches for windows and for their sums
//! of squares.
//!
//! The library is generic in the sample type: the per-sample formula and the
//! sum of squares are functions that the caller supplies, and the contracts
//! speak of what those functions promise.

pub mod error;
pub mod sum_of_squares;
pub mod window;
pub mod window_cache;
