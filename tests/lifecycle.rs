use std::collections::HashMap;

use aid_distributor::state::AidDistributorState;
use aid_distributor::types::{AidError, ErrorKind, VoucherStatus};
use aid_distributor::voucher::generate_voucher_id;

/// A stand-in for the token ledger that pays vendors.
struct Ledger {
    balances: HashMap<String, u64>,
}

impl Ledger {
    fn new() -> Ledger {
        Ledger { balances: HashMap::new() }
    }

    fn transfer(&mut self, to: &String, amount: u64) -> Result<(), String> {
        *self.balances.entry(to.clone()).or_insert(0) += amount;
        Ok(())
    }

    fn balance_of(&self, who: &String) -> u64 {
        *self.balances.get(who).unwrap_or(&0)
    }
}

/// Redeems through both halves, paying through `ledger` in between.
fn redeem(
    contract: &mut AidDistributorState,
    ledger: &mut Ledger,
    caller: &String,
    voucher_id: &String,
    now: u64,
) -> Result<(), AidError> {
    let amount = contract.authorize_redemption(caller, voucher_id, now)?;
    let outcome = ledger.transfer(caller, amount);
    contract.settle_redemption(voucher_id, outcome)
}

fn setup_contract() -> AidDistributorState {
    AidDistributorState::new()
}

#[test]
fn test_full_voucher_lifecycle() {
    let mut contract = setup_contract();
    let mut ledger = Ledger::new();
    let zone_id = "ZONE_01".to_string();
    let vendor_id = "vendor_bob".to_string();
    let beneficiary = "user_alice".to_string();
    let amount = 50_000_000;

    contract.internal_add_zone(zone_id.clone(), "Flood Zone A".to_string(), 100_000_000).unwrap();
    contract.internal_register_vendor(vendor_id.clone(), "Food".to_string()).unwrap();

    let voucher_id = contract
        .internal_issue_voucher(beneficiary, zone_id.clone(), amount, 30, 1000)
        .unwrap();

    let zone = contract.disaster_zones.get(&zone_id).unwrap();
    assert_eq!(zone.budget_spent, amount);

    let voucher = contract.vouchers.get(&voucher_id).unwrap();
    assert_eq!(voucher.status.name(), "Issued");

    let res = redeem(&mut contract, &mut ledger, &vendor_id, &voucher_id, 1000);
    assert!(res.is_ok());

    let voucher_updated = contract.vouchers.get(&voucher_id).unwrap();
    assert_eq!(voucher_updated.status.name(), "Redeemed");

    assert_eq!(ledger.balance_of(&vendor_id), amount);
}

#[test]
fn test_security_unverified_vendor() {
    let mut contract = setup_contract();
    let mut ledger = Ledger::new();
    let zone_id = "ZONE_01".to_string();
    let thief_id = "thief_dave".to_string();

    contract.internal_add_zone(zone_id.clone(), "Test".to_string(), 100_000_000).unwrap();
    let voucher_id = contract.internal_issue_voucher("alice".to_string(), zone_id, 100, 30, 0).unwrap();

    let res = redeem(&mut contract, &mut ledger, &thief_id, &voucher_id, 0);

    assert!(res.is_err());
    assert_eq!(res.err().unwrap().message(), "Caller is not a registered vendor");
}

#[test]
fn test_budget_overflow_protection() {
    let mut contract = setup_contract();
    let zone_id = "ZONE_MAX".to_string();

    contract.internal_add_zone(zone_id.clone(), "Small Budget".to_string(), 100).unwrap();

    let res = contract.internal_issue_voucher("alice".to_string(), zone_id, 101, 30, 0);

    assert!(res.is_err());
    assert!(res.err().unwrap().message().contains("Insufficient budget"));
}

#[test]
fn lifecycle_moves_state_and_pays_vendor() {
    let mut contract = setup_contract();
    let mut ledger = Ledger::new();
    let zone = "ZONE_01".to_string();
    let bob = "vendor_bob".to_string();
    contract.internal_add_zone(zone.clone(), "Flood Zone A".to_string(), 100_000_000).unwrap();
    contract.internal_register_vendor(bob.clone(), "Food".to_string()).unwrap();
    let id = contract
        .internal_issue_voucher("user_alice".to_string(), zone.clone(), 50_000_000, 30, 1000)
        .unwrap();
    assert_eq!(contract.disaster_zones.get(&zone).unwrap().budget_spent, 50_000_000);
    let v = contract.vouchers.get(&id).unwrap();
    assert_eq!(v.status, VoucherStatus::Issued);
    assert_eq!(v.expiry, 1000 + 2_592_000);
    assert_eq!(v.amount, 50_000_000);
    assert_eq!(redeem(&mut contract, &mut ledger, &bob, &id, 2000).is_ok(), true);
    assert_eq!(contract.vouchers.get(&id).unwrap().status, VoucherStatus::Redeemed);
    assert_eq!(ledger.balance_of(&bob), 50_000_000);
}

#[test]
fn caller_without_vendor_record_is_refused_and_nothing_changes() {
    let mut contract = setup_contract();
    let zone = "ZONE_01".to_string();
    contract.internal_add_zone(zone.clone(), "Flood Zone A".to_string(), 100_000_000).unwrap();
    contract.internal_register_vendor("vendor_bob".to_string(), "Food".to_string()).unwrap();
    let id = contract
        .internal_issue_voucher("user_alice".to_string(), zone.clone(), 50_000_000, 30, 1000)
        .unwrap();
    let err = contract.authorize_redemption(&"thief_dave".to_string(), &id, 1000).unwrap_err();
    assert!(matches!(err, AidError::NotAVendor));
    assert_eq!(err.kind(), ErrorKind::Authorization);
    assert_eq!(contract.vouchers.get(&id).unwrap().status, VoucherStatus::Issued);
    assert_eq!(contract.disaster_zones.get(&zone).unwrap().budget_spent, 50_000_000);
}

#[test]
fn voucher_over_budget_is_refused_and_nothing_spent() {
    let mut contract = setup_contract();
    let zone = "Z".to_string();
    contract.internal_add_zone(zone.clone(), "Small".to_string(), 100).unwrap();
    let err = contract.internal_issue_voucher("alice".to_string(), zone.clone(), 101, 30, 0).unwrap_err();
    assert!(matches!(err, AidError::InsufficientBudget { remaining: 100 }));
    assert_eq!(err.kind(), ErrorKind::BudgetExceeded);
    assert_eq!(err.message(), "Insufficient budget. Remaining: 100");
    assert_eq!(contract.disaster_zones.get(&zone).unwrap().budget_spent, 0);
    assert_eq!(contract.vouchers.len(), 0);
}

#[test]
fn expired_voucher_is_marked_and_stays_refused() {
    let mut contract = setup_contract();
    let zone = "ZONE_01".to_string();
    let bob = "vendor_bob".to_string();
    contract.internal_add_zone(zone.clone(), "Flood".to_string(), 1000).unwrap();
    contract.internal_register_vendor(bob.clone(), "Food".to_string()).unwrap();
    let id = contract.internal_issue_voucher("alice".to_string(), zone, 10, 30, 1000).unwrap();
    assert_eq!(contract.vouchers.get(&id).unwrap().expiry, 2_593_000);
    let first = contract.authorize_redemption(&bob, &id, 3_000_000).unwrap_err();
    assert!(matches!(first, AidError::VoucherExpired));
    assert_eq!(contract.vouchers.get(&id).unwrap().status, VoucherStatus::Expired);
    let second = contract.authorize_redemption(&bob, &id, 3_000_001).unwrap_err();
    assert!(matches!(second, AidError::InvalidVoucherState { status: VoucherStatus::Expired }));
    assert_eq!(second.kind(), ErrorKind::InvalidState);
    assert_eq!(second.message(), "Voucher status is Expired");
}

#[test]
fn redemption_at_expiry_is_still_allowed() {
    let mut contract = setup_contract();
    let zone = "Z".to_string();
    let bob = "bob".to_string();
    contract.internal_add_zone(zone.clone(), "Z".to_string(), 1000).unwrap();
    contract.internal_register_vendor(bob.clone(), "Food".to_string()).unwrap();
    let id = contract.internal_issue_voucher("alice".to_string(), zone, 10, 1, 0).unwrap();
    assert_eq!(contract.authorize_redemption(&bob, &id, 86_400).unwrap(), 10);
    assert_eq!(contract.vouchers.get(&id).unwrap().status, VoucherStatus::Issued);
}

#[test]
fn allocation_past_u64_max_is_refused() {
    let mut contract = setup_contract();
    let zone = "Z".to_string();
    contract.internal_add_zone(zone.clone(), "Z".to_string(), 0).unwrap();
    contract.internal_allocate_budget(zone.clone(), u64::MAX).unwrap();
    assert_eq!(contract.disaster_zones.get(&zone).unwrap().budget_allocated, u64::MAX);
    let err = contract.internal_allocate_budget(zone.clone(), 1).unwrap_err();
    assert!(matches!(err, AidError::BudgetOverflow));
    assert_eq!(err.kind(), ErrorKind::Arithmetic);
    assert_eq!(contract.disaster_zones.get(&zone).unwrap().budget_allocated, u64::MAX);
}

#[test]
fn allocation_adds_to_budget() {
    let mut contract = setup_contract();
    let zone = "Z".to_string();
    contract.internal_add_zone(zone.clone(), "Zone".to_string(), 40).unwrap();
    contract.internal_allocate_budget(zone.clone(), 2).unwrap();
    let z = contract.disaster_zones.get(&zone).unwrap();
    assert_eq!(z.budget_allocated, 42);
    assert_eq!(z.budget_spent, 0);
    assert_eq!(z.name, "Zone");
    assert!(z.active);
}

#[test]
fn allocation_to_unknown_zone_is_refused() {
    let mut contract = setup_contract();
    let err = contract.internal_allocate_budget("nowhere".to_string(), 5).unwrap_err();
    assert!(matches!(err, AidError::ZoneNotFound));
    assert_eq!(err.kind(), ErrorKind::NotFound);
    assert_eq!(err.message(), "Zone not found");
}

#[test]
fn spend_overflow_is_refused() {
    let mut contract = setup_contract();
    let zone = "Z".to_string();
    contract.internal_add_zone(zone.clone(), "Z".to_string(), u64::MAX).unwrap();
    contract.internal_issue_voucher("a".to_string(), zone.clone(), 10, 1, 0).unwrap();
    let err = contract.internal_issue_voucher("b".to_string(), zone.clone(), u64::MAX, 1, 0).unwrap_err();
    assert!(matches!(err, AidError::BudgetOverflow));
    assert_eq!(err.kind(), ErrorKind::Arithmetic);
    assert_eq!(contract.disaster_zones.get(&zone).unwrap().budget_spent, 10);
}

#[test]
fn second_issue_to_same_pair_conflicts() {
    let mut contract = setup_contract();
    let zone = "Z".to_string();
    contract.internal_add_zone(zone.clone(), "Z".to_string(), 100).unwrap();
    let id = contract.internal_issue_voucher("alice".to_string(), zone.clone(), 30, 1, 0).unwrap();
    let err = contract.internal_issue_voucher("alice".to_string(), zone.clone(), 30, 5, 9).unwrap_err();
    assert!(matches!(err, AidError::DuplicateVoucher));
    assert_eq!(err.kind(), ErrorKind::Conflict);
    assert_eq!(contract.disaster_zones.get(&zone).unwrap().budget_spent, 30);
    assert_eq!(contract.vouchers.len(), 1);
    assert_eq!(contract.vouchers.get(&id).unwrap().expiry, 86_400);
}

#[test]
fn second_issue_without_room_reports_budget_first() {
    let mut contract = setup_contract();
    let zone = "Z".to_string();
    contract.internal_add_zone(zone.clone(), "Z".to_string(), 50).unwrap();
    contract.internal_issue_voucher("alice".to_string(), zone.clone(), 30, 1, 0).unwrap();
    let err = contract.internal_issue_voucher("alice".to_string(), zone.clone(), 30, 1, 0).unwrap_err();
    assert!(matches!(err, AidError::InsufficientBudget { remaining: 20 }));
}

#[test]
fn inactive_or_missing_zone_is_refused() {
    let mut contract = setup_contract();
    let err = contract.internal_issue_voucher("a".to_string(), "none".to_string(), 1, 1, 0).unwrap_err();
    assert!(matches!(err, AidError::ZoneNotFound));
}

#[test]
fn voucher_id_joins_zone_and_beneficiary() {
    let id = generate_voucher_id(&"ZONE_01".to_string(), &"user_alice".to_string());
    assert_eq!(id, "ZONE_01:user_alice");
}

#[test]
fn issued_voucher_records_its_fields() {
    let mut contract = setup_contract();
    let zone = "ZONE_01".to_string();
    contract.internal_add_zone(zone.clone(), "Z".to_string(), 10).unwrap();
    let id = contract.internal_issue_voucher("bea".to_string(), zone.clone(), 10, 2, 5).unwrap();
    assert_eq!(id, "ZONE_01:bea");
    let v = contract.vouchers.get(&id).unwrap();
    assert_eq!(v.id, id);
    assert_eq!(v.beneficiary_id, "bea");
    assert_eq!(v.zone_id, "ZONE_01");
    assert_eq!(v.expiry, 5 + 2 * 86_400);
    assert_eq!(contract.disaster_zones.get(&zone).unwrap().budget_spent, 10);
}
