//! The invite-redemption transition. The host ledger loads the pool, the
//! invite and the addressed index page, supplies the caller's identity, the
//! caller's token balance and the current time, and commits every record
//! atomically when the transition succeeds; on any error nothing is committed
//! and the records are left exactly as they were.

use vstd::prelude::*;
use vstd::string::StrSliceExecFns;

use crate::citizen::{Citizen, MAX_NAME_LENGTH};
use crate::citizen_index::{CitizenIndex, MAX_CITIZENS_PER_INDEX};
use crate::error::GovernanceError;
use crate::governance::{lemma_page_accounting_preserved, GovernancePool};
use crate::invite::GovernanceInvite;
use crate::AccountKey;

verus! {

/// Everything one redemption reads and writes, materialized by the host
/// before the transition runs. The three records are mutated on success; the
/// remaining fields are host-supplied context and are never changed.
#[derive(Clone, Debug, PartialEq, Eq)]
pub struct UseGovernanceInvite {
    /// The pool's aggregate counters (mutated).
    pub governance_pool: GovernancePool,
    /// The pool record's address on the ledger.
    pub governance_pool_key: AccountKey,
    /// The invite being redeemed (mutated).
    pub invite: GovernanceInvite,
    /// Freshly allocated storage for the new citizen record (written on
    /// success). The host guarantees no record existed yet for this member
    /// and pool.
    pub citizen_account: Citizen,
    /// The index page addressed by `total_citizens / MAX_CITIZENS_PER_INDEX`
    /// (mutated).
    pub citizen_index: CitizenIndex,
    /// The authenticated identity of the redeeming member.
    pub new_member: AccountKey,
    /// The member's token balance at call time, reported in the event.
    pub member_token_amount: u64,
    /// The current time, from the host's clock.
    pub now: i64,
}

/// The event reported to external observers after a successful redemption.
#[derive(Clone, Copy, Debug, PartialEq, Eq, Structural)]
pub struct CitizenAddedToGovernance {
    pub governance_pool: AccountKey,
    pub citizen: AccountKey,
    pub token_amount: u64,
}

/// Why the applicant's profile is rejected — name too long, then a
/// demographic code out of range — or `None` if it is acceptable.
pub open spec fn input_error(
    name: Seq<char>,
    region: u8,
    age_group: u8,
    other_demographic: u8,
) -> Option<GovernanceError> {
    if name.len() > MAX_NAME_LENGTH as int {
        Some(GovernanceError::InvalidInput)
    } else if !Citizen::demographics_valid(region, age_group, other_demographic) {
        Some(GovernanceError::InvalidDemographic)
    } else {
        None
    }
}

/// Check the applicant's profile: name length and demographic ranges.
pub fn validate_input(name: &String, region: u8, age_group: u8, other_demographic: u8) -> (result:
    Result<(), GovernanceError>)
    ensures
        match result {
            Result::Ok(()) => input_error(name@, region, age_group, other_demographic) is None,
            Result::Err(e) => input_error(name@, region, age_group, other_demographic) == Some(e),
        },
{
    if name.as_str().unicode_len() > MAX_NAME_LENGTH {
        return Result::Err(GovernanceError::InvalidInput);
    }
    if region >= 8 {
        return Result::Err(GovernanceError::InvalidDemographic);
    }
    if age_group >= 5 {
        return Result::Err(GovernanceError::InvalidDemographic);
    }
    if other_demographic >= 4 {
        return Result::Err(GovernanceError::InvalidDemographic);
    }
    Result::Ok(())
}

/// Why a redemption of `ctx` with the given profile fails, or `None` when it
/// succeeds: first the invite checks, then the profile checks, then the
/// capacity of the addressed index page.
pub open spec fn redeem_error(
    ctx: UseGovernanceInvite,
    name: Seq<char>,
    region: u8,
    age_group: u8,
    other_demographic: u8,
) -> Option<GovernanceError> {
    if ctx.invite.check_error(ctx.governance_pool_key, ctx.now) is Some {
        ctx.invite.check_error(ctx.governance_pool_key, ctx.now)
    } else if input_error(name, region, age_group, other_demographic) is Some {
        input_error(name, region, age_group, other_demographic)
    } else if ctx.citizen_index.is_full() {
        Some(GovernanceError::CitizenIndexFull)
    } else {
        None
    }
}

/// Redeem a single-use invite: validate the invite and the applicant's
/// profile, lazily initialize the addressed index page, append the member to
/// it, create the citizen record, update the pool's counters, consume the
/// invite, and report the event. On any failure every record is left exactly
/// as it was.
pub fn use_governance_invite(
    ctx: &mut UseGovernanceInvite,
    name: String,
    region: u8,
    age_group: u8,
    other_demographic: u8,
) -> (result: Result<CitizenAddedToGovernance, GovernanceError>)
    requires
        old(ctx).governance_pool.total_citizens < u32::MAX,
        old(ctx).governance_pool.total_citizen_indices < u32::MAX,
        old(ctx).citizen_index.wf(),
    ensures
        result is Ok <==> redeem_error(*old(ctx), name@, region, age_group, other_demographic)
            is None,
        result is Err ==> *final(ctx) == *old(ctx),
        result is Ok ==> final(ctx).governance_pool.total_citizens == old(
            ctx,
        ).governance_pool.total_citizens + 1,
        result is Ok ==> final(ctx).governance_pool.total_citizen_indices == old(
            ctx,
        ).governance_pool.total_citizen_indices + (
        if (old(ctx).governance_pool.total_citizens + 1) % (MAX_CITIZENS_PER_INDEX as int) == 0 {
            1int
        } else {
            0int
        }),
        result is Ok && old(ctx).governance_pool.wf() ==> final(ctx).governance_pool.wf(),
        ({
            let before = *old(ctx);
            let after = *final(ctx);
            match result {
                Result::Err(e) => redeem_error(before, name@, region, age_group, other_demographic)
                    == Some(e),
                Result::Ok(event) => {
                    &&& after.governance_pool == before.governance_pool.after_new_citizen()
                    &&& after.invite == before.invite.after_consumed(before.new_member)
                    &&& after.citizen_account.is_new_record(
                        name@,
                        before.governance_pool_key,
                        region,
                        age_group,
                        other_demographic,
                    )
                    &&& after.citizen_index is Active
                    &&& after.citizen_index.wf()
                    &&& after.citizen_index.citizens_seq() == before.citizen_index.citizens_seq().push(
                        before.new_member,
                    )
                    &&& after.citizen_index.count_of() == before.citizen_index.count_of() + 1
                    &&& after.citizen_index.pool_of() == (if before.citizen_index is Active {
                        before.citizen_index.pool_of()
                    } else {
                        Some(before.governance_pool_key)
                    })
                    &&& event == (CitizenAddedToGovernance {
                        governance_pool: before.governance_pool_key,
                        citizen: before.new_member,
                        token_amount: before.member_token_amount,
                    })
                    &&& after.governance_pool_key == before.governance_pool_key
                    &&& after.new_member == before.new_member
                    &&& after.member_token_amount == before.member_token_amount
                    &&& after.now == before.now
                },
            }
        }),
{
    let ghost pool_before = ctx.governance_pool;

    // Invite checks: ownership, single use, expiry.
    match ctx.invite.validate(ctx.governance_pool_key, ctx.now) {
        Result::Ok(()) => {},
        Result::Err(e) => {
            return Result::Err(e);
        },
    }

    // Profile checks: name length and demographic ranges.
    match validate_input(&name, region, age_group, other_demographic) {
        Result::Ok(()) => {},
        Result::Err(e) => {
            return Result::Err(e);
        },
    }

    // Initialize the index page if this redemption is the first to touch it,
    // then append the member; a full page rejects the whole redemption while
    // everything is still unchanged.
    ctx.citizen_index.ensure_active(ctx.governance_pool_key);
    match ctx.citizen_index.append_citizen(ctx.new_member) {
        Result::Ok(()) => {},
        Result::Err(e) => {
            return Result::Err(e);
        },
    }

    // From here on nothing can fail: write the citizen record, bump the
    // pool's counters, and consume the invite.
    ctx.citizen_account = Citizen::build(
        name,
        ctx.governance_pool_key,
        region,
        age_group,
        other_demographic,
    );
    ctx.governance_pool.record_new_citizen();
    proof {
        if pool_before.wf() {
            lemma_page_accounting_preserved(pool_before);
        }
    }
    ctx.invite.consume(ctx.new_member);

    Result::Ok(
        CitizenAddedToGovernance {
            governance_pool: ctx.governance_pool_key,
            citizen: ctx.new_member,
            token_amount: ctx.member_token_amount,
        },
    )
}

/// A consumed invite is permanently dead: after a redemption succeeds, any
/// later attempt that presents the consumed invite against its pool fails
/// with `InviteAlreadyUsed`, whatever the time and whatever profile the
/// attempt carries. By the contract of `use_governance_invite`, the failing
/// attempt also leaves every record unchanged.
pub proof fn lemma_invite_single_use(
    first: UseGovernanceInvite,
    second: UseGovernanceInvite,
    first_name: Seq<char>,
    first_region: u8,
    first_age_group: u8,
    first_other_demographic: u8,
    second_name: Seq<char>,
    second_region: u8,
    second_age_group: u8,
    second_other_demographic: u8,
)
    requires
        redeem_error(first, first_name, first_region, first_age_group, first_other_demographic)
            is None,
        second.invite == first.invite.after_consumed(first.new_member),
        second.governance_pool_key == first.governance_pool_key,
    ensures
        redeem_error(
            second,
            second_name,
            second_region,
            second_age_group,
            second_other_demographic,
        ) == Some(GovernanceError::InviteAlreadyUsed),
{
}

} // verus!
