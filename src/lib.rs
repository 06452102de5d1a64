//! Time-value-of-money building blocks: payment timing, solver case
//! selection, cash-flow sign preconditions and the iteration budget of the
//! Newton-style rate searches.
mod cashflow;
mod error;
mod newton;
mod periods;
mod split;
mod when;

pub use crate::cashflow::{
    all_non_positive, all_positive, any_non_positive, any_positive, irr_preconditions_hold,
    irr_searchable, lemma_same_sign_flows_have_no_irr, mirr_computable, mirr_preconditions_hold,
    FlowSign,
};
pub use crate::error::{Error, ParaError};
pub use crate::newton::{BudgetView, NewtonBudget, StepOutcome, IRR_MAX_ITERATIONS};
pub use crate::periods::{periods_method, PeriodsMethod, RateRegion};
pub use crate::split::{interest_method, InterestMethod};
pub use crate::when::{when_weight, WhenType};
