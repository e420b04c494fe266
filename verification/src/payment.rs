//! The payment formula and the cases around it.

use vstd::prelude::*;
use crate::decimal::{
    checked_add, checked_div, checked_mul, checked_powd, checked_sub, difference, div_model,
    integer_model, model_of, mul_model, neg_model, power, round_model, sum, Dec, DecimalModel,
};

verus! {

/// The rate per month for a yearly rate in percent: `(rate / 100) / 12`.
pub open spec fn monthly_rate_model(annual_rate_percent: DecimalModel) -> Option<DecimalModel> {
    match div_model(annual_rate_percent, integer_model(100)) {
        Some(fraction) => div_model(fraction, integer_model(12)),
        None => None,
    }
}

/// The discount `1 - (1 + rate)^(-months)` that the amortization formula
/// divides by.
pub open spec fn discount_model(monthly_rate: DecimalModel, months: nat) -> Option<DecimalModel> {
    match sum(integer_model(1), monthly_rate) {
        Some(base) => match power(base, neg_model(integer_model(months))) {
            Some(shrunk) => difference(integer_model(1), shrunk),
            None => None,
        },
        None => None,
    }
}

/// The amortization formula at a nonzero monthly rate:
/// `(principal * rate) / (1 - (1 + rate)^(-months))`.
pub open spec fn amortized_model(principal: DecimalModel, monthly_rate: DecimalModel, months: nat) -> Option<DecimalModel> {
    match (mul_model(principal, monthly_rate), discount_model(monthly_rate, months)) {
        (Some(numerator), Some(denominator)) => div_model(numerator, denominator),
        _ => None,
    }
}

/// The payment at a monthly rate over a number of months: a rate of zero
/// spreads the principal evenly, any other rate goes through the
/// amortization formula.
pub open spec fn payment_at_rate_model(principal: DecimalModel, monthly_rate: DecimalModel, months: nat) -> Option<DecimalModel> {
    if monthly_rate.magnitude == 0 {
        div_model(principal, integer_model(months))
    } else {
        amortized_model(principal, monthly_rate, months)
    }
}

/// The monthly payment of a loan, `None` where a step of the arithmetic has
/// no result in the decimal range.
///
/// A term of zero years gives the principal back. Any other term is paid
/// in twelve instalments a year at a twelfth of the yearly rate.
pub open spec fn payment_model(principal: DecimalModel, annual_rate_percent: DecimalModel, years: nat) -> Option<DecimalModel> {
    if years == 0 {
        Some(principal)
    } else {
        match monthly_rate_model(annual_rate_percent) {
            Some(monthly_rate) => payment_at_rate_model(principal, monthly_rate, years * 12),
            None => None,
        }
    }
}

/// The rate per month for a yearly rate in percent, or `None` where the
/// division has no result.
pub fn monthly_rate(annual_rate_percent: Dec) -> (rate: Option<Dec>)
    ensures
        model_of(rate) == monthly_rate_model(annual_rate_percent@),
{
    match checked_div(annual_rate_percent, Dec::from_u64(100)) {
        Some(fraction) => checked_div(fraction, Dec::from_u64(12)),
        None => None,
    }
}

/// The divisor of the amortization formula for a monthly rate and a number
/// of months, or `None` where a step of it has no result.
pub fn discount(monthly_rate: Dec, months: u64) -> (divisor: Option<Dec>)
    ensures
        model_of(divisor) == discount_model(monthly_rate@, months as nat),
{
    let one = Dec::from_u64(1);
    let base = match checked_add(one, monthly_rate) {
        Some(value) => value,
        None => { return None; },
    };
    match checked_powd(base, Dec::from_u64(months).neg()) {
        Some(shrunk) => checked_sub(one, shrunk),
        None => None,
    }
}

/// The payment at a monthly rate over a number of months, or `None` where
/// a step of the arithmetic has no result.
pub fn payment_at_rate(principal: Dec, monthly_rate: Dec, months: u64) -> (payment: Option<Dec>)
    ensures
        model_of(payment) == payment_at_rate_model(principal@, monthly_rate@, months as nat),
{
    if monthly_rate.is_zero() {
        return checked_div(principal, Dec::from_u64(months));
    }
    match (checked_mul(principal, monthly_rate), discount(monthly_rate, months)) {
        (Some(numerator), Some(denominator)) => checked_div(numerator, denominator),
        _ => None,
    }
}

/// Calculates the monthly payment for a loan.
///
/// `principal` is the amount borrowed, `annual_rate_percent` the yearly
/// interest in percent (5.0 for 5%) and `years` the term. The result is not
/// rounded. Neither sign nor size of the inputs is checked; the caller must
/// know that the arithmetic stays in the decimal range, which
/// [`payment_is_representable`] tests and [`checked_monthly_payment`]
/// takes care of.
pub fn calculate_monthly_payment(principal: Dec, annual_rate_percent: Dec, years: u32) -> (payment: Dec)
    requires
        payment_model(principal@, annual_rate_percent@, years as nat) is Some,
    ensures
        Some(payment@) == payment_model(principal@, annual_rate_percent@, years as nat),
        years == 0 ==> payment == principal,
{
    if years == 0 {
        return principal;
    }
    let months: u64 = years as u64 * 12;
    let rate = monthly_rate(annual_rate_percent).unwrap();
    payment_at_rate(principal, rate, months).unwrap()
}

/// Whether every step of the payment arithmetic has a result, so that
/// [`calculate_monthly_payment`] may be called.
pub fn payment_is_representable(principal: Dec, annual_rate_percent: Dec, years: u32) -> (representable: bool)
    ensures
        representable == (payment_model(principal@, annual_rate_percent@, years as nat) is Some),
{
    if years == 0 {
        return true;
    }
    let months: u64 = years as u64 * 12;
    match monthly_rate(annual_rate_percent) {
        Some(rate) => payment_at_rate(principal, rate, months).is_some(),
        None => false,
    }
}

/// The monthly payment, or `None` where the arithmetic leaves the decimal
/// range or would divide by zero.
pub fn checked_monthly_payment(principal: Dec, annual_rate_percent: Dec, years: u32) -> (payment: Option<Dec>)
    ensures
        model_of(payment) == payment_model(principal@, annual_rate_percent@, years as nat),
        years == 0 ==> payment == Some(principal),
{
    if payment_is_representable(principal, annual_rate_percent, years) {
        Some(calculate_monthly_payment(principal, annual_rate_percent, years))
    } else {
        None
    }
}

/// At a yearly rate of zero there is no interest: the payment is the
/// principal divided by the number of months, and it is there exactly when
/// that quotient is.
pub proof fn lemma_zero_rate_divides_evenly(principal: Dec, annual_rate_percent: Dec, years: u32)
    requires
        annual_rate_percent@.magnitude == 0,
        years > 0,
    ensures
        payment_model(principal@, annual_rate_percent@, years as nat) == div_model(
            principal@,
            integer_model(years as nat * 12),
        ),
{
}

/// A loan of nothing costs nothing: with a principal of zero and a term of
/// at least a year, a payment that can be worked out is the plain zero, and
/// rounding it to any number of digits leaves it zero.
pub proof fn lemma_zero_principal_pays_zero(
    principal: Dec,
    annual_rate_percent: Dec,
    years: u32,
    dp: nat,
)
    requires
        principal@.magnitude == 0,
        years > 0,
        payment_model(principal@, annual_rate_percent@, years as nat) is Some,
    ensures
        payment_model(principal@, annual_rate_percent@, years as nat) == Some(integer_model(0)),
        round_model(integer_model(0), dp) == integer_model(0),
{
}

} // verus!
