use vstd::prelude::*;
use crate::store::KeyedStore;
use crate::types::{DisasterZone, Vendor, Voucher};

verus! {

/// The identity under which a voucher for `beneficiary` in `zone` is stored:
/// the zone's identity, a colon, and the beneficiary's identity. It depends on
/// the pair alone, so a pair can never hold two vouchers.
pub open spec fn voucher_key(zone: Seq<char>, beneficiary: Seq<char>) -> Seq<char> {
    zone + seq![':'] + beneficiary
}

/// The three record tables that every operation reads and updates.
pub struct AidDistributorState {
    pub vendors: KeyedStore<Vendor>,
    pub disaster_zones: KeyedStore<DisasterZone>,
    pub vouchers: KeyedStore<Voucher>,
}

impl AidDistributorState {
    /// The invariants that every operation keeps: no zone has spent more
    /// than it was allocated, and each record sits under its own identity,
    /// a voucher under the one derived from its zone and beneficiary.
    pub open spec fn wf(&self) -> bool {
        &&& self.vendors.wf()
        &&& self.disaster_zones.wf()
        &&& self.vouchers.wf()
        &&& forall|k: Seq<char>| #[trigger] self.disaster_zones@.contains_key(k)
            ==> self.disaster_zones@[k].budget_spent <= self.disaster_zones@[k].budget_allocated
        &&& forall|k: Seq<char>| #[trigger] self.vendors@.contains_key(k)
            ==> self.vendors@[k].id@ == k
        &&& forall|k: Seq<char>| #[trigger] self.vouchers@.contains_key(k)
            ==> self.vouchers@[k].id@ == k
                && k == voucher_key(self.vouchers@[k].zone_id@, self.vouchers@[k].beneficiary_id@)
    }

    /// A state with no vendors, zones or vouchers.
    pub fn new() -> (r: Self)
        ensures
            r.wf(),
            r.vendors@ == Map::<Seq<char>, Vendor>::empty(),
            r.disaster_zones@ == Map::<Seq<char>, DisasterZone>::empty(),
            r.vouchers@ == Map::<Seq<char>, Voucher>::empty(),
    {
        AidDistributorState {
            vendors: KeyedStore::new(),
            disaster_zones: KeyedStore::new(),
            vouchers: KeyedStore::new(),
        }
    }
}

} // verus!
