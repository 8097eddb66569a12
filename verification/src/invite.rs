//! A single-use invitation: the right, granted by the pool's issuance flow,
//! for one participant to register as a citizen before an expiry time.

use vstd::prelude::*;

use crate::error::GovernanceError;
use crate::AccountKey;

verus! {

/// An invitation record. It is created unused by an external issuance flow,
/// consumed exactly once by a successful redemption, and terminal thereafter.
#[derive(Clone, Copy, Debug, PartialEq, Eq)]
pub struct GovernanceInvite {
    /// The pool the invite was issued for.
    pub governance_pool: AccountKey,
    /// Whether a redemption has already consumed the invite.
    pub is_used: bool,
    /// Who consumed the invite, once someone has.
    pub used_by: Option<AccountKey>,
    /// Last time at which the invite may still be redeemed.
    pub expires_at: i64,
}

impl GovernanceInvite {
    /// Why this invite cannot be redeemed against the given pool at the given
    /// time — ownership, then single use, then expiry — or `None` if it can.
    pub open spec fn check_error(self, pool_key: AccountKey, now: i64) -> Option<
        GovernanceError,
    > {
        if self.governance_pool != pool_key {
            Some(GovernanceError::InvalidInvite)
        } else if self.is_used {
            Some(GovernanceError::InviteAlreadyUsed)
        } else if now > self.expires_at {
            Some(GovernanceError::InviteExpired)
        } else {
            None
        }
    }

    /// Check that the invite belongs to the given pool, has not been used,
    /// and has not expired at time `now`.
    pub fn validate(&self, pool_key: AccountKey, now: i64) -> (result: Result<
        (),
        GovernanceError,
    >)
        ensures
            match result {
                Result::Ok(()) => self.check_error(pool_key, now) is None,
                Result::Err(e) => self.check_error(pool_key, now) == Some(e),
            },
    {
        if self.governance_pool != pool_key {
            return Result::Err(GovernanceError::InvalidInvite);
        }
        if self.is_used {
            return Result::Err(GovernanceError::InviteAlreadyUsed);
        }
        if now > self.expires_at {
            return Result::Err(GovernanceError::InviteExpired);
        }
        Result::Ok(())
    }

    /// The invite after a member has consumed it: marked used, with the
    /// member recorded; pool and expiry are untouched.
    pub open spec fn after_consumed(self, member: AccountKey) -> GovernanceInvite {
        GovernanceInvite { is_used: true, used_by: Some(member), ..self }
    }

    /// Consume the invite on behalf of the redeeming member.
    pub fn consume(&mut self, member: AccountKey)
        ensures
            *final(self) == old(self).after_consumed(member),
    {
        self.is_used = true;
        self.used_by = Some(member);
    }
}

} // verus!
