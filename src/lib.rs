//! Deterministic software IEEE-754 binary64 arithmetic with explicit
//! rounding modes and sticky exception flags.

pub mod flags;
pub mod float64;
pub mod kernel;

pub mod rounding;

pub use flags::ExceptionFlags;

pub use float64::F64;
pub use rounding::RoundingMode;
