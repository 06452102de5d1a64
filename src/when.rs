use vstd::prelude::*;

verus! {

/// When payments are due within a payment period.
#[derive(Clone, Copy, Debug, PartialEq, Eq, Structural)]
pub enum WhenType {
    /// Payments fall due at the end of each period.
    End,
    /// Payments fall due at the start of each period.
    Begin,
}

impl WhenType {
    /// The numeric weight of the timing in the annuity equation's
    /// `1 + rate * when` term.
    pub open spec fn weight(self) -> nat {
        match self {
            WhenType::End => 0,
            WhenType::Begin => 1,
        }
    }
}

/// The weight that multiplies the rate in `1 + rate * when`:
/// `0` for payments at period end, `1` for payments at period start.
pub fn when_weight(when: WhenType) -> (w: u8)
    ensures
        w == when.weight(),
{
    match when {
        WhenType::End => 0,
        WhenType::Begin => 1,
    }
}

} // verus!
