use rfinancial::{interest_method, when_weight, InterestMethod, WhenType};

#[test]
fn end_payments_weigh_zero() {
    assert_eq!(when_weight(WhenType::End), 0);
}

#[test]
fn begin_payments_weigh_one() {
    assert_eq!(when_weight(WhenType::Begin), 1);
}

#[test]
fn weight_is_usable_as_rate_factor() {
    let rate = 0.075;
    let end = 1.0 + rate * when_weight(WhenType::End) as f64;
    let begin = 1.0 + rate * when_weight(WhenType::Begin) as f64;
    assert_eq!(end, 1.0);
    assert_eq!(begin, 1.075);
}

#[test]
fn payment_zero_has_no_interest_portion() {
    assert_eq!(interest_method(0, WhenType::End), InterestMethod::Undefined);
    assert_eq!(interest_method(0, WhenType::Begin), InterestMethod::Undefined);
}

#[test]
fn first_payment_due_at_begin_has_no_interest() {
    assert_eq!(interest_method(1, WhenType::Begin), InterestMethod::Nothing);
}

#[test]
fn later_payment_due_at_begin_is_discounted() {
    assert_eq!(interest_method(2, WhenType::Begin), InterestMethod::Discounted);
    assert_eq!(interest_method(u32::MAX, WhenType::Begin), InterestMethod::Discounted);
}

#[test]
fn payments_due_at_end_accrue_on_balance() {
    assert_eq!(interest_method(1, WhenType::End), InterestMethod::OnBalance);
    assert_eq!(interest_method(24, WhenType::End), InterestMethod::OnBalance);
}
