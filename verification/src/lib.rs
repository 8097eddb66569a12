//! Invite redemption for a sortition-based governance registry.
//!
//! A governance pool admits new citizens through single-use invites. Redeeming
//! an invite validates the invite and the applicant's profile, creates a
//! citizen record, appends the applicant to a fixed-capacity index page,
//! updates the pool's aggregate counters, consumes the invite, and reports an
//! event for observers. The whole transition is a pure in-memory computation:
//! the host ledger loads the records beforehand, supplies the current time and
//! the account addresses, and commits all of the records atomically afterwards.

use vstd::prelude::*;

pub mod citizen;
pub mod citizen_index;
pub mod error;
pub mod governance;
pub mod invite;
pub mod use_invite;

verus! {

/// The address of a record on the host ledger. The host derives and checks
/// these addresses; this logic only stores and compares them.
pub type AccountKey = u64;

} // verus!
