//! The per-pool aggregate record: how many citizens the pool has registered
//! and how many index pages those citizens have filled.

use vstd::arithmetic::div_mod::{
    lemma_fundamental_div_mod, lemma_fundamental_div_mod_converse, lemma_mod_bound,
};
use vstd::prelude::*;

use crate::citizen_index::MAX_CITIZENS_PER_INDEX;

verus! {

/// Aggregate counters for one governance pool. `total_citizens` grows by
/// exactly one per successful redemption; `total_citizen_indices` counts the
/// index pages that have been completely filled. Pages themselves are created
/// lazily on first use, so the page counter is intentionally bumped only by
/// the redemption that fills a page, not by the one that first touches it.
#[derive(Clone, Copy, Debug, PartialEq, Eq, Structural)]
pub struct GovernancePool {
    pub total_citizens: u32,
    pub total_citizen_indices: u32,
}

impl GovernancePool {
    /// Paging invariant: the filled-page counter equals the number of whole
    /// pages covered by the citizens registered so far.
    pub open spec fn wf(self) -> bool {
        self.total_citizen_indices as int == self.total_citizens as int / (MAX_CITIZENS_PER_INDEX
            as int)
    }

    /// The counters after one more citizen is registered: the citizen count
    /// grows by one, and the filled-page counter grows by one exactly when
    /// the new citizen count is a multiple of the page capacity.
    pub open spec fn after_new_citizen(self) -> GovernancePool {
        GovernancePool {
            total_citizens: (self.total_citizens + 1) as u32,
            total_citizen_indices: if (self.total_citizens + 1) % (MAX_CITIZENS_PER_INDEX as int)
                == 0 {
                (self.total_citizen_indices + 1) as u32
            } else {
                self.total_citizen_indices
            },
        }
    }

    /// Record one successful redemption on the pool's counters.
    pub fn record_new_citizen(&mut self)
        requires
            old(self).total_citizens < u32::MAX,
            old(self).total_citizen_indices < u32::MAX,
        ensures
            *final(self) == old(self).after_new_citizen(),
    {
        self.total_citizens = self.total_citizens + 1;
        if self.total_citizens % (MAX_CITIZENS_PER_INDEX as u32) == 0 {
            self.total_citizen_indices = self.total_citizen_indices + 1;
        }
    }
}

/// Registering one more citizen preserves the paging invariant: bumping the
/// filled-page counter exactly at multiples of `MAX_CITIZENS_PER_INDEX` keeps
/// `total_citizen_indices` equal to `total_citizens / MAX_CITIZENS_PER_INDEX`.
pub proof fn lemma_page_accounting_preserved(pool: GovernancePool)
    requires
        pool.wf(),
        pool.total_citizens < u32::MAX,
    ensures
        pool.after_new_citizen().wf(),
{
    let p = MAX_CITIZENS_PER_INDEX as int;
    let tc = pool.total_citizens as int;
    lemma_fundamental_div_mod(tc, p);
    lemma_mod_bound(tc, p);
    let q = tc / p;
    let r = tc % p;
    if r + 1 < p {
        lemma_fundamental_div_mod_converse(tc + 1, p, q, r + 1);
    } else {
        assert(tc + 1 == (q + 1) * p) by (nonlinear_arith)
            requires
                tc == q * p + r,
                r == p - 1,
        ;
        lemma_fundamental_div_mod_converse(tc + 1, p, q + 1, 0);
    }
}

} // verus!
