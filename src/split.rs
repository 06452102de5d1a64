use crate::when::WhenType;
use vstd::prelude::*;

verus! {

/// How the interest portion of payment number `per` is obtained.
#[derive(Clone, Copy, Debug, PartialEq, Eq, Structural)]
pub enum InterestMethod {
    /// `per < 1`: there is no such payment, and no interest or principal
    /// portion.
    Undefined,
    /// The first payment of an annuity due: no interest has accrued yet, so
    /// the interest portion is zero.
    Nothing,
    /// A later payment of an annuity due: the balance after `per - 1`
    /// payments, discounted one period, times the rate.
    Discounted,
    /// A payment at period end: the balance after `per - 1` payments times
    /// the rate.
    OnBalance,
}

/// Picks the interest-portion formula for payment number `per` (counted
/// from one) and the payment timing.
pub fn interest_method(per: u32, when: WhenType) -> (m: InterestMethod)
    ensures
        per < 1 ==> m == InterestMethod::Undefined,
        per == 1 && when == WhenType::Begin ==> m == InterestMethod::Nothing,
        per >= 2 && when == WhenType::Begin ==> m == InterestMethod::Discounted,
        per >= 1 && when == WhenType::End ==> m == InterestMethod::OnBalance,
{
    if per < 1 {
        InterestMethod::Undefined
    } else {
        match when {
            WhenType::Begin => {
                if per == 1 {
                    InterestMethod::Nothing
                } else {
                    InterestMethod::Discounted
                }
            },
            WhenType::End => InterestMethod::OnBalance,
        }
    }
}

} // verus!
