use vstd::prelude::*;
use crate::state::{voucher_key, AidDistributorState};
use crate::types::{AidError, ErrorKind, VoucherStatus};

verus! {

/// No zone has spent more than it was allocated. Every operation keeps
/// `wf`, so this holds of every state the library produces.
pub proof fn lemma_spent_within_allocation(s: AidDistributorState, zone_id: Seq<char>)
    requires
        s.wf(),
        s.disaster_zones@.contains_key(zone_id),
    ensures
        s.disaster_zones@[zone_id].budget_spent <= s.disaster_zones@[zone_id].budget_allocated,
{
}

/// Two vouchers for the same zone and beneficiary are one and the same
/// record: a pair never holds two vouchers.
pub proof fn lemma_one_voucher_per_pair(s: AidDistributorState, k1: Seq<char>, k2: Seq<char>)
    requires
        s.wf(),
        s.vouchers@.contains_key(k1),
        s.vouchers@.contains_key(k2),
        s.vouchers@[k1].zone_id@ == s.vouchers@[k2].zone_id@,
        s.vouchers@[k1].beneficiary_id@ == s.vouchers@[k2].beneficiary_id@,
    ensures
        k1 == k2,
{
}

/// Issuing twice to the same beneficiary in the same zone succeeds once and
/// is refused as a conflict the second time, and the zone is charged once.
/// Where the zone could not pay the amount a second time, the second call
/// stops at the budget check instead, so such inputs are left out.
pub proof fn lemma_second_issue_conflicts(
    s0: AidDistributorState,
    s1: AidDistributorState,
    s2: AidDistributorState,
    beneficiary_id: String,
    zone_id: String,
    amount: u64,
    expiry_days: u64,
    now: u64,
    again_beneficiary_id: String,
    again_zone_id: String,
    again_expiry_days: u64,
    again_now: u64,
    r1: Result<String, AidError>,
    r2: Result<String, AidError>,
)
    requires
        s0.wf(),
        s0.issue_error(beneficiary_id@, zone_id@, amount) is None,
        s0.disaster_zones@[zone_id@].budget_spent + 2 * amount
            <= s0.disaster_zones@[zone_id@].budget_allocated,
        again_beneficiary_id@ == beneficiary_id@,
        again_zone_id@ == zone_id@,
        AidDistributorState::issue_step(s0, s1, beneficiary_id, zone_id, amount, expiry_days, now, r1),
        AidDistributorState::issue_step(
            s1,
            s2,
            again_beneficiary_id,
            again_zone_id,
            amount,
            again_expiry_days,
            again_now,
            r2,
        ),
    ensures
        r1 is Ok,
        r2 == Err::<String, AidError>(AidError::DuplicateVoucher),
        r2->Err_0.spec_kind() == ErrorKind::Conflict,
        s2 == s1,
        s2.disaster_zones@[zone_id@].budget_spent == s0.disaster_zones@[zone_id@].budget_spent
            + amount,
{
    assert(s1.vouchers@.contains_key(voucher_key(zone_id@, beneficiary_id@)));
}

/// Issuing from an active zone an amount whose sum with what the zone has
/// spent would not fit in 64 bits fails as an arithmetic error and leaves
/// the state, the zone included, unchanged. An inactive zone is refused for
/// that reason first, so it is left out.
pub proof fn lemma_spend_overflow_refused(
    s0: AidDistributorState,
    s1: AidDistributorState,
    beneficiary_id: String,
    zone_id: String,
    amount: u64,
    expiry_days: u64,
    now: u64,
    r: Result<String, AidError>,
)
    requires
        s0.wf(),
        s0.disaster_zones@.contains_key(zone_id@),
        s0.disaster_zones@[zone_id@].active,
        s0.disaster_zones@[zone_id@].budget_spent + amount > u64::MAX,
        AidDistributorState::issue_step(s0, s1, beneficiary_id, zone_id, amount, expiry_days, now, r),
    ensures
        r == Err::<String, AidError>(AidError::BudgetOverflow),
        r->Err_0.spec_kind() == ErrorKind::Arithmetic,
        s1 == s0,
{
}

/// Redemption by an identity without a verified vendor record is refused
/// as an authorization failure and changes nothing, whatever the voucher.
pub proof fn lemma_unverified_caller_refused(
    s0: AidDistributorState,
    s1: AidDistributorState,
    caller: Seq<char>,
    voucher_id: Seq<char>,
    now: u64,
    r: Result<u64, AidError>,
)
    requires
        s0.wf(),
        !(s0.vendors@.contains_key(caller) && s0.vendors@[caller].verified),
        AidDistributorState::authorize_step(s0, s1, caller, voucher_id, now, r),
    ensures
        r is Err,
        r->Err_0.spec_kind() == ErrorKind::Authorization,
        s1 == s0,
{
}

/// A redemption attempt on an issued voucher past its expiry marks it
/// `Expired` and fails; a later attempt by a verified vendor fails as an
/// invalid state, not as an authorization or lookup failure.
pub proof fn lemma_expired_voucher_stays_refused(
    s0: AidDistributorState,
    s1: AidDistributorState,
    s2: AidDistributorState,
    caller: Seq<char>,
    voucher_id: Seq<char>,
    now: u64,
    again_caller: Seq<char>,
    again_now: u64,
    r1: Result<u64, AidError>,
    r2: Result<u64, AidError>,
)
    requires
        s0.wf(),
        s0.vendors@.contains_key(caller) && s0.vendors@[caller].verified,
        s0.vendors@.contains_key(again_caller) && s0.vendors@[again_caller].verified,
        s0.vouchers@.contains_key(voucher_id),
        s0.vouchers@[voucher_id].status == VoucherStatus::Issued,
        now > s0.vouchers@[voucher_id].expiry,
        AidDistributorState::authorize_step(s0, s1, caller, voucher_id, now, r1),
        AidDistributorState::authorize_step(s1, s2, again_caller, voucher_id, again_now, r2),
    ensures
        r1 == Err::<u64, AidError>(AidError::VoucherExpired),
        s1.vouchers@[voucher_id].status == VoucherStatus::Expired,
        r2 == Err::<u64, AidError>(
            AidError::InvalidVoucherState { status: VoucherStatus::Expired },
        ),
        r2->Err_0.spec_kind() == ErrorKind::InvalidState,
        s2 == s1,
{
}

} // verus!
