//! Disaster-relief aid as vouchers: zones hold budgets, vouchers are issued
//! against them to beneficiaries, and verified vendors redeem them for value.
//! Every operation keeps the budget and voucher invariants of
//! `AidDistributorState::wf`; `laws` states the properties that follow.
use vstd::prelude::*;

pub mod laws;
pub mod registries;
pub mod state;
pub mod store;
pub mod treasury;
pub mod types;
pub mod voucher;

verus! {

} // verus!
