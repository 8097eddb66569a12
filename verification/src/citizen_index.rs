//! One page of a pool's citizen index: a fixed-capacity, append-only list of
//! citizen identifiers. The host addresses the page for a redemption by
//! `total_citizens / MAX_CITIZENS_PER_INDEX`; a page's storage exists from the
//! moment it is first addressed, but its fields are written lazily by the
//! first redemption that lands on it.

use vstd::prelude::*;

use crate::error::GovernanceError;
use crate::AccountKey;

verus! {

/// Capacity of one index page.
pub const MAX_CITIZENS_PER_INDEX: usize = 100;

/// An index page. A freshly allocated page is `Uninitialized`; the first
/// redemption that lands on it makes it `Active` with an empty list before
/// appending. An explicit tag keeps an untouched page distinct from a page
/// that is initialized but happens to be empty.
#[derive(Clone, Debug, PartialEq, Eq)]
pub enum CitizenIndex {
    Uninitialized,
    Active { governance_pool: AccountKey, citizens: Vec<AccountKey>, count: u32 },
}

impl CitizenIndex {
    /// The identifiers stored on the page; an untouched page stores none.
    pub open spec fn citizens_seq(self) -> Seq<AccountKey> {
        match self {
            CitizenIndex::Uninitialized => Seq::empty(),
            CitizenIndex::Active { citizens, .. } => citizens@,
        }
    }

    /// The page's mirrored element counter; an untouched page counts zero.
    pub open spec fn count_of(self) -> u32 {
        match self {
            CitizenIndex::Uninitialized => 0,
            CitizenIndex::Active { count, .. } => count,
        }
    }

    /// The pool the page belongs to, once it has been initialized.
    pub open spec fn pool_of(self) -> Option<AccountKey> {
        match self {
            CitizenIndex::Uninitialized => None,
            CitizenIndex::Active { governance_pool, .. } => Some(governance_pool),
        }
    }

    /// Well-formed: the counter mirrors the number of stored identifiers and
    /// the page never exceeds its capacity.
    pub open spec fn wf(self) -> bool {
        match self {
            CitizenIndex::Uninitialized => true,
            CitizenIndex::Active { citizens, count, .. } => count as int == citizens@.len()
                && citizens@.len() <= MAX_CITIZENS_PER_INDEX as int,
        }
    }

    /// A page that can take no further citizen.
    pub open spec fn is_full(self) -> bool {
        self is Active && self.citizens_seq().len() >= MAX_CITIZENS_PER_INDEX as int
    }

    /// Lazily initialize the page: an untouched page becomes an empty active
    /// page of the given pool; a page already in use is left exactly as it is.
    pub fn ensure_active(&mut self, pool_key: AccountKey)
        ensures
            *final(self) is Active,
            *old(self) is Active ==> *final(self) == *old(self),
            final(self).citizens_seq() == old(self).citizens_seq(),
            final(self).count_of() == old(self).count_of(),
            final(self).pool_of() == (if *old(self) is Active {
                old(self).pool_of()
            } else {
                Some(pool_key)
            }),
            old(self).wf() ==> final(self).wf(),
    {
        match self {
            CitizenIndex::Uninitialized => {
                *self = CitizenIndex::Active {
                    governance_pool: pool_key,
                    citizens: Vec::new(),
                    count: 0,
                };
            },
            CitizenIndex::Active { .. } => {},
        }
    }

    /// Append one citizen to an active page; a page already holding
    /// `MAX_CITIZENS_PER_INDEX` entries is left unchanged and the append
    /// fails with `CitizenIndexFull`.
    pub fn append_citizen(&mut self, member: AccountKey) -> (result: Result<
        (),
        GovernanceError,
    >)
        requires
            *old(self) is Active,
            old(self).wf(),
        ensures
            *final(self) is Active,
            final(self).wf(),
            final(self).pool_of() == old(self).pool_of(),
            match result {
                Result::Ok(()) => !old(self).is_full() && final(self).citizens_seq() == old(
                    self,
                ).citizens_seq().push(member) && final(self).count_of() == old(self).count_of()
                    + 1,
                Result::Err(e) => e == GovernanceError::CitizenIndexFull && old(self).is_full()
                    && *final(self) == *old(self),
            },
    {
        match self {
            CitizenIndex::Active { citizens, count, .. } => {
                if citizens.len() >= MAX_CITIZENS_PER_INDEX {
                    return Result::Err(GovernanceError::CitizenIndexFull);
                }
                citizens.push(member);
                *count = *count + 1;
                Result::Ok(())
            },
            CitizenIndex::Uninitialized => {
                proof {
                    assert(false);
                }
                Result::Err(GovernanceError::CitizenIndexFull)
            },
        }
    }
}

} // verus!
