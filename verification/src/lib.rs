//! A verified chart of accounts and the services built around it.
//!
//! The chart itself, the operations that change it and the decisions that the
//! services take between two calls to the outside world live here. Databases,
//! the ledger and permission checks are reached by whoever runs the
//! operations that this library hands out.
use vstd::prelude::*;

pub mod accounting_templates;
pub mod chart_of_accounts;
pub mod core_accounting;
pub mod idempotent;
pub mod primitives;
pub mod template_operation;
pub mod terms_templates;

verus! {

} // verus!
