use vstd::prelude::*;
use crate::state::AidDistributorState;
use crate::types::{AidError, DisasterZone};

verus! {

impl AidDistributorState {
    /// Raises the allocation of zone `zone_id` by `amount`. A sum past
    /// `u64::MAX` is refused, and the zone stays as it was.
    pub fn internal_allocate_budget(&mut self, zone_id: String, amount: u64) -> (r: Result<
        (),
        AidError,
    >)
        requires
            old(self).wf(),
        ensures
            final(self).wf(),
            !old(self).disaster_zones@.contains_key(zone_id@) ==> r == Err::<(), AidError>(
                AidError::ZoneNotFound,
            ) && *final(self) == *old(self),
            old(self).disaster_zones@.contains_key(zone_id@) ==> {
                let z = old(self).disaster_zones@[zone_id@];
                if z.budget_allocated + amount > u64::MAX {
                    r == Err::<(), AidError>(AidError::BudgetOverflow) && *final(self) == *old(self)
                } else {
                    &&& r == Ok::<(), AidError>(())
                    &&& final(self).disaster_zones@ == old(self).disaster_zones@.insert(
                        zone_id@,
                        DisasterZone {
                            name: z.name,
                            active: z.active,
                            budget_allocated: (z.budget_allocated + amount) as u64,
                            budget_spent: z.budget_spent,
                        },
                    )
                    &&& final(self).vendors == old(self).vendors
                    &&& final(self).vouchers == old(self).vouchers
                }
            },
    {
        let zone = match self.disaster_zones.get(&zone_id) {
            Some(z) => z,
            None => return Err(AidError::ZoneNotFound),
        };
        let budget_allocated = match zone.budget_allocated.checked_add(amount) {
            Some(v) => v,
            None => return Err(AidError::BudgetOverflow),
        };
        let updated = DisasterZone {
            name: zone.name.clone(),
            active: zone.active,
            budget_allocated,
            budget_spent: zone.budget_spent,
        };
        self.disaster_zones.insert(zone_id, updated);
        Ok(())
    }
}

} // verus!
