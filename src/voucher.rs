use vstd::prelude::*;
use vstd::string::*;
use crate::state::{voucher_key, AidDistributorState};
use crate::types::{AidError, DisasterZone, Voucher, VoucherStatus};

verus! {

/// Seconds in a day, the unit of a voucher's validity period.
pub const SECONDS_PER_DAY: u64 = 86400;

/// `v` with its status replaced by `status`.
pub open spec fn with_status(v: Voucher, status: VoucherStatus) -> Voucher {
    Voucher {
        id: v.id,
        beneficiary_id: v.beneficiary_id,
        amount: v.amount,
        zone_id: v.zone_id,
        status: status,
        expiry: v.expiry,
    }
}

/// The identity of the voucher for `beneficiary_id` in `zone_id`.
pub fn generate_voucher_id(zone_id: &String, beneficiary_id: &String) -> (r: String)
    ensures
        r@ == voucher_key(zone_id@, beneficiary_id@),
{
    let mut id = zone_id.clone();
    id.append(":");
    id.append(beneficiary_id.as_str());
    proof {
        reveal_strlit(":");
    }
    id
}

impl AidDistributorState {
    /// Why issuing `amount` to `beneficiary` in `zone_id` is refused, checked
    /// in order: zone, activity, overflow, remaining budget, duplicate.
    pub open spec fn issue_error(&self, beneficiary: Seq<char>, zone_id: Seq<char>, amount: u64) -> Option<AidError> {
        let zones = self.disaster_zones@;
        if !zones.contains_key(zone_id) {
            Some(AidError::ZoneNotFound)
        } else if !zones[zone_id].active {
            Some(AidError::ZoneInactive)
        } else if zones[zone_id].budget_spent + amount > u64::MAX {
            Some(AidError::BudgetOverflow)
        } else if zones[zone_id].budget_spent + amount > zones[zone_id].budget_allocated {
            Some(
                AidError::InsufficientBudget {
                    remaining: (zones[zone_id].budget_allocated - zones[zone_id].budget_spent) as u64,
                },
            )
        } else if self.vouchers@.contains_key(voucher_key(zone_id, beneficiary)) {
            Some(AidError::DuplicateVoucher)
        } else {
            None
        }
    }

    /// How one issuance takes `pre` to `post` with result `r`: a refusal
    /// changes nothing; a success charges the zone and records an `Issued`
    /// voucher that expires `expiry_days` days after `now`.
    pub open spec fn issue_step(
        pre: Self,
        post: Self,
        beneficiary_id: String,
        zone_id: String,
        amount: u64,
        expiry_days: u64,
        now: u64,
        r: Result<String, AidError>,
    ) -> bool {
        match pre.issue_error(beneficiary_id@, zone_id@, amount) {
            Some(e) => r == Err::<String, AidError>(e) && post == pre,
            None => {
                let z = pre.disaster_zones@[zone_id@];
                let key = voucher_key(zone_id@, beneficiary_id@);
                &&& r is Ok
                &&& r->Ok_0@ == key
                &&& post.disaster_zones@ == pre.disaster_zones@.insert(
                    zone_id@,
                    DisasterZone {
                        name: z.name,
                        active: z.active,
                        budget_allocated: z.budget_allocated,
                        budget_spent: (z.budget_spent + amount) as u64,
                    },
                )
                &&& post.vouchers@ == pre.vouchers@.insert(
                    key,
                    Voucher {
                        id: r->Ok_0,
                        beneficiary_id: beneficiary_id,
                        amount: amount,
                        zone_id: zone_id,
                        status: VoucherStatus::Issued,
                        expiry: (now + expiry_days * SECONDS_PER_DAY) as u64,
                    },
                )
                &&& post.vendors == pre.vendors
            },
        }
    }

    /// Issues a voucher worth `amount` to `beneficiary_id` in zone `zone_id`
    /// at time `now`, valid for `expiry_days` days, and returns its identity.
    pub fn internal_issue_voucher(
        &mut self,
        beneficiary_id: String,
        zone_id: String,
        amount: u64,
        expiry_days: u64,
        now: u64,
    ) -> (r: Result<String, AidError>)
        requires
            old(self).wf(),
            now + expiry_days * SECONDS_PER_DAY <= u64::MAX,
        ensures
            final(self).wf(),
            Self::issue_step(
                *old(self),
                *final(self),
                beneficiary_id,
                zone_id,
                amount,
                expiry_days,
                now,
                r,
            ),
    {
        let zone = match self.disaster_zones.get(&zone_id) {
            Some(z) => z,
            None => return Err(AidError::ZoneNotFound),
        };
        if !zone.active {
            return Err(AidError::ZoneInactive);
        }
        let new_spent = match zone.budget_spent.checked_add(amount) {
            Some(v) => v,
            None => return Err(AidError::BudgetOverflow),
        };
        if new_spent > zone.budget_allocated {
            return Err(
                AidError::InsufficientBudget { remaining: zone.budget_allocated - zone.budget_spent },
            );
        }
        let voucher_id = generate_voucher_id(&zone_id, &beneficiary_id);
        if self.vouchers.contains_key(&voucher_id) {
            return Err(AidError::DuplicateVoucher);
        }
        let updated = DisasterZone {
            name: zone.name.clone(),
            active: zone.active,
            budget_allocated: zone.budget_allocated,
            budget_spent: new_spent,
        };
        let voucher = Voucher {
            id: voucher_id.clone(),
            beneficiary_id,
            amount,
            zone_id: zone_id.clone(),
            status: VoucherStatus::Issued,
            expiry: now + expiry_days * SECONDS_PER_DAY,
        };
        self.disaster_zones.insert(zone_id, updated);
        self.vouchers.insert(voucher_id.clone(), voucher);
        Ok(voucher_id)
    }
    /// Why `caller` may not redeem voucher `voucher_id` at time `now`, checked
    /// in order: vendor record, verification, voucher, status, expiry.
    pub open spec fn redemption_error(&self, caller: Seq<char>, voucher_id: Seq<char>, now: u64) -> Option<AidError> {
        if !self.vendors@.contains_key(caller) {
            Some(AidError::NotAVendor)
        } else if !self.vendors@[caller].verified {
            Some(AidError::VendorNotVerified)
        } else if !self.vouchers@.contains_key(voucher_id) {
            Some(AidError::VoucherNotFound)
        } else if self.vouchers@[voucher_id].status != VoucherStatus::Issued {
            Some(AidError::InvalidVoucherState { status: self.vouchers@[voucher_id].status })
        } else if now > self.vouchers@[voucher_id].expiry {
            Some(AidError::VoucherExpired)
        } else {
            None
        }
    }

    /// How one authorization attempt takes `pre` to `post` with result `r`.
    /// Past expiry the voucher is marked `Expired`, the one refusal that
    /// changes state; any other refusal changes nothing, and an approval
    /// changes nothing and names the amount to pay.
    pub open spec fn authorize_step(
        pre: Self,
        post: Self,
        caller: Seq<char>,
        voucher_id: Seq<char>,
        now: u64,
        r: Result<u64, AidError>,
    ) -> bool {
        match pre.redemption_error(caller, voucher_id, now) {
            Some(AidError::VoucherExpired) => {
                &&& r == Err::<u64, AidError>(AidError::VoucherExpired)
                &&& post.vouchers@ == pre.vouchers@.insert(
                    voucher_id,
                    with_status(pre.vouchers@[voucher_id], VoucherStatus::Expired),
                )
                &&& post.vendors == pre.vendors
                &&& post.disaster_zones == pre.disaster_zones
            },
            Some(e) => r == Err::<u64, AidError>(e) && post == pre,
            None => r == Ok::<u64, AidError>(pre.vouchers@[voucher_id].amount) && post == pre,
        }
    }

    /// The first half of a redemption by `caller` at time `now`: checks that
    /// the caller is a verified vendor and that the voucher is issued and
    /// unexpired, and returns the amount to transfer to the caller. The
    /// transfer's outcome is then handed to `settle_redemption`.
    pub fn authorize_redemption(&mut self, caller: &String, voucher_id: &String, now: u64) -> (r:
        Result<u64, AidError>)
        requires
            old(self).wf(),
        ensures
            final(self).wf(),
            Self::authorize_step(*old(self), *final(self), caller@, voucher_id@, now, r),
    {
        match self.vendors.get(caller) {
            None => return Err(AidError::NotAVendor),
            Some(vendor) => {
                if !vendor.verified {
                    return Err(AidError::VendorNotVerified);
                }
            },
        }
        let voucher = match self.vouchers.get(voucher_id) {
            Some(v) => v,
            None => return Err(AidError::VoucherNotFound),
        };
        if voucher.status != VoucherStatus::Issued {
            return Err(AidError::InvalidVoucherState { status: voucher.status });
        }
        if now > voucher.expiry {
            let expired = Voucher {
                id: voucher.id.clone(),
                beneficiary_id: voucher.beneficiary_id.clone(),
                amount: voucher.amount,
                zone_id: voucher.zone_id.clone(),
                status: VoucherStatus::Expired,
                expiry: voucher.expiry,
            };
            self.vouchers.insert(voucher_id.clone(), expired);
            return Err(AidError::VoucherExpired);
        }
        Ok(voucher.amount)
    }

    /// The second half of a redemption: given the outcome of the transfer
    /// that `authorize_redemption` asked for, marks the voucher `Redeemed`,
    /// or reports the failed transfer and leaves the voucher as it was.
    pub fn settle_redemption(&mut self, voucher_id: &String, transfer: Result<(), String>) -> (r:
        Result<(), AidError>)
        requires
            old(self).wf(),
        ensures
            final(self).wf(),
            !old(self).vouchers@.contains_key(voucher_id@) ==> r == Err::<(), AidError>(
                AidError::VoucherNotFound,
            ) && *final(self) == *old(self),
            old(self).vouchers@.contains_key(voucher_id@) ==> {
                let v = old(self).vouchers@[voucher_id@];
                if v.status != VoucherStatus::Issued {
                    r == Err::<(), AidError>(AidError::InvalidVoucherState { status: v.status })
                        && *final(self) == *old(self)
                } else {
                    match transfer {
                        Err(e) => r == Err::<(), AidError>(AidError::TransferFailed { reason: e })
                            && *final(self) == *old(self),
                        Ok(_) => {
                            &&& r == Ok::<(), AidError>(())
                            &&& final(self).vouchers@ == old(self).vouchers@.insert(
                                voucher_id@,
                                with_status(v, VoucherStatus::Redeemed),
                            )
                            &&& final(self).vendors == old(self).vendors
                            &&& final(self).disaster_zones == old(self).disaster_zones
                        },
                    }
                }
            },
    {
        let voucher = match self.vouchers.get(voucher_id) {
            Some(v) => v,
            None => return Err(AidError::VoucherNotFound),
        };
        if voucher.status != VoucherStatus::Issued {
            return Err(AidError::InvalidVoucherState { status: voucher.status });
        }
        match transfer {
            Err(e) => Err(AidError::TransferFailed { reason: e }),
            Ok(()) => {
                let redeemed = Voucher {
                    id: voucher.id.clone(),
                    beneficiary_id: voucher.beneficiary_id.clone(),
                    amount: voucher.amount,
                    zone_id: voucher.zone_id.clone(),
                    status: VoucherStatus::Redeemed,
                    expiry: voucher.expiry,
                };
                self.vouchers.insert(voucher_id.clone(), redeemed);
                Ok(())
            },
        }
    }
}

} // verus!
