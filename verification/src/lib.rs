//! Fixed monthly payment of an amortizing loan, computed in 96-bit decimal
//! arithmetic.
//!
//! [`calculate_monthly_payment`] maps a principal, a yearly rate in percent
//! and a term in years to the payment per month. It rounds nothing for
//! display; [`Dec::round_dp`] does, ties to even. [`checked_monthly_payment`]
//! is the same calculation for callers that cannot know whether the
//! arithmetic stays in range.
//!
//! - [`decimal`]: the numbers, and every call into `rust_decimal`.
//! - [`payment`]: the formula and what is proved of it.
//! - [`term`]: reading a number of years.
//! - [`cli`]: the command line, as a function from operands to an answer.

pub mod cli;
pub mod decimal;
pub mod payment;
pub mod term;

pub use decimal::Dec;
pub use payment::{calculate_monthly_payment, checked_monthly_payment, payment_is_representable};
