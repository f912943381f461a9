//! Decimal32 values in the binary-integer-decimal interchange encoding:
//! field decoding, classification, sign and quantum operations, and the
//! total ordering of bit patterns.

pub mod fields;
pub mod decimal;
pub mod operations;
pub mod order;
pub mod laws;

pub use decimal::{d32, Class};
