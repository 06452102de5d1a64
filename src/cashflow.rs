use vstd::prelude::*;

verus! {

/// Where a cash flow stands against zero, as the rate-of-return
/// preconditions read it.
#[derive(Clone, Copy, Debug, PartialEq, Eq, Structural)]
pub enum FlowSign {
    /// The flow is zero or negative (an outflow, or nothing).
    NonPositive,
    /// The flow is strictly positive (an inflow).
    Positive,
    /// The flow compares neither way with zero (not a number).
    Unordered,
}

pub open spec fn all_non_positive(signs: Seq<FlowSign>) -> bool {
    forall|i: int| 0 <= i < signs.len() ==> signs[i] == FlowSign::NonPositive
}

pub open spec fn all_positive(signs: Seq<FlowSign>) -> bool {
    forall|i: int| 0 <= i < signs.len() ==> signs[i] == FlowSign::Positive
}

pub open spec fn any_non_positive(signs: Seq<FlowSign>) -> bool {
    exists|i: int| 0 <= i < signs.len() && signs[i] == FlowSign::NonPositive
}

pub open spec fn any_positive(signs: Seq<FlowSign>) -> bool {
    exists|i: int| 0 <= i < signs.len() && signs[i] == FlowSign::Positive
}

/// The internal rate of return is searched for only on two or more flows
/// that are neither all non-positive nor all positive.
pub open spec fn irr_searchable(signs: Seq<FlowSign>) -> bool {
    &&& signs.len() > 1
    &&& !all_non_positive(signs)
    &&& !all_positive(signs)
}

/// The modified internal rate of return is computed only when some flow is
/// non-positive and some flow is positive.
pub open spec fn mirr_computable(signs: Seq<FlowSign>) -> bool {
    any_non_positive(signs) && any_positive(signs)
}

/// Whether the internal-rate-of-return search runs on flows of these signs.
pub fn irr_preconditions_hold(signs: &Vec<FlowSign>) -> (r: bool)
    ensures
        r == irr_searchable(signs@),
{
    if signs.len() <= 1 {
        return false;
    }
    let mut every_non_positive = true;
    let mut every_positive = true;
    let mut i: usize = 0;
    while i < signs.len()
        invariant
            0 <= i <= signs@.len(),
            every_non_positive == forall|j: int|
                0 <= j < i ==> signs@[j] == FlowSign::NonPositive,
            every_positive == forall|j: int| 0 <= j < i ==> signs@[j] == FlowSign::Positive,
        decreases signs@.len() - i,
    {
        if signs[i] != FlowSign::NonPositive {
            every_non_positive = false;
        }
        if signs[i] != FlowSign::Positive {
            every_positive = false;
        }
        i = i + 1;
    }
    !every_non_positive && !every_positive
}

/// Whether the modified internal rate of return is computed on flows of
/// these signs.
pub fn mirr_preconditions_hold(signs: &Vec<FlowSign>) -> (r: bool)
    ensures
        r == mirr_computable(signs@),
{
    let mut some_non_positive = false;
    let mut some_positive = false;
    let mut i: usize = 0;
    while i < signs.len()
        invariant
            0 <= i <= signs@.len(),
            some_non_positive == exists|j: int|
                0 <= j < i && signs@[j] == FlowSign::NonPositive,
            some_positive == exists|j: int| 0 <= j < i && signs@[j] == FlowSign::Positive,
        decreases signs@.len() - i,
    {
        if signs[i] == FlowSign::NonPositive {
            some_non_positive = true;
        }
        if signs[i] == FlowSign::Positive {
            some_positive = true;
        }
        i = i + 1;
    }
    some_non_positive && some_positive
}

/// Flows that all share one sign, non-positive or positive, give the
/// internal-rate-of-return search nothing to look for.
pub proof fn lemma_same_sign_flows_have_no_irr(signs: Seq<FlowSign>, sign: FlowSign)
    requires
        sign != FlowSign::Unordered,
        forall|i: int| 0 <= i < signs.len() ==> signs[i] == sign,
    ensures
        !irr_searchable(signs),
{
}

} // verus!
