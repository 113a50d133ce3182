use vstd::prelude::*;
use crate::pubkey::Pubkey;

verus! {

/// The slot counter of the hosting ledger.
#[derive(Clone, Copy, Debug)]
pub struct Clock {
    pub slot: u64,
}

/// Global configuration of one registry instance.
#[derive(Clone, Copy, Debug)]
pub struct Registrar {
    pub initialized: bool,
    /// Governance key.
    pub authority: Pubkey,
    /// Custodial vault of the regular stake class.
    pub vault: Pubkey,
    /// Custodial vault of the mega stake class.
    pub mega_vault: Pubkey,
    /// Aggregate stake, in regular units, at which an entity becomes active.
    pub reward_activation_threshold: u64,
    /// Slots an entity may stay pending deactivation before turning inactive.
    pub deactivation_timelock_premium: u64,
}

impl Registrar {
    /// The length, in slots, of the deactivation window.
    pub open spec fn deactivation_timelock_spec(self) -> u64 {
        self.deactivation_timelock_premium
    }

    pub fn deactivation_timelock(&self) -> (r: u64)
        ensures
            r == self.deactivation_timelock_spec(),
    {
        self.deactivation_timelock_premium
    }
}

} // verus!
