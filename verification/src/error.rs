//! The error kinds a redemption can fail with. Every failure aborts the whole
//! operation before any record is changed.

use vstd::prelude::*;

verus! {

/// Why a redemption was rejected. Each kind identifies exactly one failed
/// precondition, so a caller can tell a permanently dead invite from input
/// that can be corrected and resubmitted.
#[derive(Clone, Copy, Debug, PartialEq, Eq, Structural)]
pub enum GovernanceError {
    /// The invite does not belong to the pool it was redeemed against.
    InvalidInvite,
    /// The invite was already consumed by an earlier redemption.
    InviteAlreadyUsed,
    /// The current time is past the invite's expiry.
    InviteExpired,
    /// The citizen's name is longer than `MAX_NAME_LENGTH`.
    InvalidInput,
    /// A demographic code is outside its range.
    InvalidDemographic,
    /// The addressed index page already holds `MAX_CITIZENS_PER_INDEX`
    /// entries; under correct page addressing this is unreachable.
    CitizenIndexFull,
}

} // verus!
