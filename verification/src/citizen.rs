//! A registered participant's profile, created exactly once per participant
//! and pool when an invite is redeemed.

use vstd::prelude::*;

use crate::AccountKey;

verus! {

/// Longest accepted citizen name, in characters.
pub const MAX_NAME_LENGTH: usize = 32;

/// A citizen record. The identity fields are fixed at redemption; only
/// eligibility and participation are expected to change in later operations.
#[derive(Clone, Debug, PartialEq, Eq)]
pub struct Citizen {
    pub name: String,
    /// The pool the citizen belongs to.
    pub governance_pool: AccountKey,
    pub is_eligible: bool,
    pub last_participation: i64,
    /// Demographic code, below 8.
    pub region: u8,
    /// Demographic code, below 5.
    pub age_group: u8,
    /// Demographic code, below 4.
    pub other_demographic: u8,
    pub is_initialized: bool,
}

impl Citizen {
    /// The demographic codes lie in their ranges.
    pub open spec fn demographics_valid(region: u8, age_group: u8, other_demographic: u8) -> bool {
        region < 8 && age_group < 5 && other_demographic < 4
    }

    /// What the record of a just-registered citizen holds: the given profile,
    /// the owning pool, eligibility granted, and no participation yet.
    pub open spec fn is_new_record(
        self,
        name: Seq<char>,
        pool_key: AccountKey,
        region: u8,
        age_group: u8,
        other_demographic: u8,
    ) -> bool {
        &&& self.name@ == name
        &&& self.governance_pool == pool_key
        &&& self.is_eligible
        &&& self.last_participation == 0
        &&& self.region == region
        &&& self.age_group == age_group
        &&& self.other_demographic == other_demographic
        &&& self.is_initialized
    }

    /// Build the record for a newly registered citizen from validated inputs.
    pub fn build(
        name: String,
        pool_key: AccountKey,
        region: u8,
        age_group: u8,
        other_demographic: u8,
    ) -> (citizen: Citizen)
        requires
            name@.len() <= MAX_NAME_LENGTH as int,
            Citizen::demographics_valid(region, age_group, other_demographic),
        ensures
            citizen.is_new_record(name@, pool_key, region, age_group, other_demographic),
    {
        Citizen {
            name,
            governance_pool: pool_key,
            is_eligible: true,
            last_participation: 0,
            region,
            age_group,
            other_demographic,
            is_initialized: true,
        }
    }
}

} // verus!
