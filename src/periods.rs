use vstd::prelude::*;

verus! {

/// Where a periodic rate stands for the number-of-periods formula.
#[derive(Clone, Copy, Debug, PartialEq, Eq, Structural)]
pub enum RateRegion {
    /// The rate is exactly zero.
    Zero,
    /// The rate is at most minus one: `1 + rate` is not positive.
    AtMostMinusOne,
    /// Any other rate.
    Other,
}

/// How the number of periods is obtained from the annuity equation.
#[derive(Clone, Copy, Debug, PartialEq, Eq, Structural)]
pub enum PeriodsMethod {
    /// Zero rate and zero payment: the balance never changes and the number
    /// of periods is positive infinity.
    Unbounded,
    /// Zero rate, nonzero payment: `-(fv + pv) / pmt`.
    Linear,
    /// No real solution: the logarithm of `1 + rate` is undefined.
    NoSolution,
    /// `ln((-fv + z) / (pv + z)) / ln(1 + rate)` with
    /// `z = pmt * (1 + rate * when) / rate`.
    Logarithmic,
}

/// Picks the number-of-periods formula for a rate and whether the payment is
/// zero. The cases are taken in order: zero rate with zero payment, zero
/// rate, rate at most minus one, then the general case.
pub fn periods_method(rate: RateRegion, pmt_is_zero: bool) -> (m: PeriodsMethod)
    ensures
        rate == RateRegion::Zero && pmt_is_zero ==> m == PeriodsMethod::Unbounded,
        rate == RateRegion::Zero && !pmt_is_zero ==> m == PeriodsMethod::Linear,
        rate == RateRegion::AtMostMinusOne ==> m == PeriodsMethod::NoSolution,
        rate == RateRegion::Other ==> m == PeriodsMethod::Logarithmic,
{
    match rate {
        RateRegion::Zero => {
            if pmt_is_zero {
                PeriodsMethod::Unbounded
            } else {
                PeriodsMethod::Linear
            }
        },
        RateRegion::AtMostMinusOne => PeriodsMethod::NoSolution,
        RateRegion::Other => PeriodsMethod::Logarithmic,
    }
}

} // verus!
