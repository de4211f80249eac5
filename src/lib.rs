//! Fast Fibonacci numbers by the doubling identities
//!
//! F(2k)   = F(k) * (2 * F(k+1) - F(k))
//! F(2k+1) = F(k)^2 + F(k+1)^2
//!
//! The computation is generic over any integer type that offers the
//! arithmetic of [`Numeric`], and is proved to return the exact Fibonacci
//! number whenever that number fits the type.
pub mod fib_math;
pub mod numeric;
pub mod doubling;

pub use doubling::{fibbonacci, fibbonacci_range, fits};
pub use fib_math::fib;
pub use numeric::Numeric;
