//! Ordinary-least-squares linear regression over an equally spaced
//! one-dimensional series of IEEE-754 double-precision samples.
//!
//! Verus cannot reason about floating-point arithmetic, so every sample,
//! coefficient and metric is carried as the raw bit pattern of an IEEE-754
//! binary64 value (a `u64`). The handful of primitive double operations the
//! algorithms need live in `fp`, each modelled by an uninterpreted function
//! of the operands' bit patterns and computed by `rustc_apfloat`'s software
//! implementation of binary64 arithmetic, which is trusted, not verified.
//! Everything built on top of them — fitting, forecasting and the
//! fit-quality metrics in `regression` — is verified: each public function's
//! contract pins its result down to the exact bit pattern that the IEEE-754
//! computation produces, and callers convert with `f64::to_bits` and
//! `f64::from_bits` at the boundary.

mod fp;
mod regression;

pub use regression::LinearRegression;
