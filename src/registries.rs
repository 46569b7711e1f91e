use vstd::prelude::*;
use crate::state::AidDistributorState;
use crate::types::{AidError, DisasterZone, Vendor};

verus! {

impl AidDistributorState {
    /// Registers `vendor_addr` as a verified vendor of `category`, replacing
    /// an unverified record; a verified one is left alone.
    pub fn internal_register_vendor(&mut self, vendor_addr: String, category: String) -> (r:
        Result<(), AidError>)
        requires
            old(self).wf(),
        ensures
            final(self).wf(),
            old(self).vendors@.contains_key(vendor_addr@) && old(self).vendors@[vendor_addr@].verified
                ==> r == Err::<(), AidError>(AidError::AlreadyVerified) && *final(self) == *old(self),
            !(old(self).vendors@.contains_key(vendor_addr@)
                && old(self).vendors@[vendor_addr@].verified) ==> {
                &&& r == Ok::<(), AidError>(())
                &&& final(self).vendors@ == old(self).vendors@.insert(
                    vendor_addr@,
                    Vendor { id: vendor_addr, category: category, verified: true },
                )
                &&& final(self).disaster_zones == old(self).disaster_zones
                &&& final(self).vouchers == old(self).vouchers
            },
    {
        if let Some(existing) = self.vendors.get(&vendor_addr) {
            if existing.verified {
                return Err(AidError::AlreadyVerified);
            }
        }
        let vendor = Vendor { id: vendor_addr.clone(), category, verified: true };
        self.vendors.insert(vendor_addr, vendor);
        Ok(())
    }

    /// Whether `vendor_addr` has a vendor record marked verified; an unknown
    /// identity is not.
    pub fn internal_is_verified_vendor(&self, vendor_addr: &String) -> (r: bool)
        requires
            self.wf(),
        ensures
            r == (self.vendors@.contains_key(vendor_addr@) && self.vendors@[vendor_addr@].verified),
    {
        match self.vendors.get(vendor_addr) {
            Some(v) => v.verified,
            None => false,
        }
    }

    /// Opens an active zone `zone_id` named `name`, with `initial_budget`
    /// allocated and nothing spent.
    pub fn internal_add_zone(&mut self, zone_id: String, name: String, initial_budget: u64) -> (r:
        Result<(), AidError>)
        requires
            old(self).wf(),
        ensures
            final(self).wf(),
            old(self).disaster_zones@.contains_key(zone_id@) ==> r == Err::<(), AidError>(
                AidError::ZoneExists,
            ) && *final(self) == *old(self),
            !old(self).disaster_zones@.contains_key(zone_id@) ==> {
                &&& r == Ok::<(), AidError>(())
                &&& final(self).disaster_zones@ == old(self).disaster_zones@.insert(
                    zone_id@,
                    DisasterZone {
                        name: name,
                        active: true,
                        budget_allocated: initial_budget,
                        budget_spent: 0,
                    },
                )
                &&& final(self).vendors == old(self).vendors
                &&& final(self).vouchers == old(self).vouchers
            },
    {
        if self.disaster_zones.contains_key(&zone_id) {
            return Err(AidError::ZoneExists);
        }
        let zone = DisasterZone {
            name,
            active: true,
            budget_allocated: initial_budget,
            budget_spent: 0,
        };
        self.disaster_zones.insert(zone_id, zone);
        Ok(())
    }
}

} // verus!
