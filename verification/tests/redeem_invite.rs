use sortition::citizen::{Citizen, MAX_NAME_LENGTH};
use sortition::citizen_index::CitizenIndex;
use sortition::error::GovernanceError;
use sortition::governance::GovernancePool;
use sortition::invite::GovernanceInvite;
use sortition::use_invite::{use_governance_invite, UseGovernanceInvite};

const POOL_KEY: u64 = 41;
const MEMBER: u64 = 9001;

fn fresh_citizen_slot() -> Citizen {
    Citizen {
        name: String::new(),
        governance_pool: 0,
        is_eligible: false,
        last_participation: 0,
        region: 0,
        age_group: 0,
        other_demographic: 0,
        is_initialized: false,
    }
}

fn fresh_ctx() -> UseGovernanceInvite {
    UseGovernanceInvite {
        governance_pool: GovernancePool { total_citizens: 0, total_citizen_indices: 0 },
        governance_pool_key: POOL_KEY,
        invite: GovernanceInvite {
            governance_pool: POOL_KEY,
            is_used: false,
            used_by: None,
            expires_at: 1_000,
        },
        citizen_account: fresh_citizen_slot(),
        citizen_index: CitizenIndex::Uninitialized,
        new_member: MEMBER,
        member_token_amount: 5_500,
        now: 500,
    }
}

#[test]
fn redeem_success_updates_every_record() {
    let mut ctx = fresh_ctx();
    let event = use_governance_invite(&mut ctx, "Ada".to_string(), 3, 2, 1).unwrap();

    assert_eq!(ctx.governance_pool.total_citizens, 1);
    assert_eq!(ctx.governance_pool.total_citizen_indices, 0);

    assert!(ctx.invite.is_used);
    assert_eq!(ctx.invite.used_by, Some(MEMBER));
    assert_eq!(ctx.invite.governance_pool, POOL_KEY);
    assert_eq!(ctx.invite.expires_at, 1_000);

    let citizen = &ctx.citizen_account;
    assert_eq!(citizen.name, "Ada");
    assert_eq!(citizen.governance_pool, POOL_KEY);
    assert!(citizen.is_eligible);
    assert_eq!(citizen.last_participation, 0);
    assert_eq!(citizen.region, 3);
    assert_eq!(citizen.age_group, 2);
    assert_eq!(citizen.other_demographic, 1);
    assert!(citizen.is_initialized);

    match &ctx.citizen_index {
        CitizenIndex::Active { governance_pool, citizens, count } => {
            assert_eq!(*governance_pool, POOL_KEY);
            assert_eq!(citizens.as_slice(), &[MEMBER]);
            assert_eq!(*count, 1);
        }
        CitizenIndex::Uninitialized => panic!("index page was not initialized"),
    }

    assert_eq!(event.governance_pool, POOL_KEY);
    assert_eq!(event.citizen, MEMBER);
    assert_eq!(event.token_amount, 5_500);
}

#[test]
fn redeem_same_invite_twice_fails_and_changes_nothing() {
    let mut ctx = fresh_ctx();
    use_governance_invite(&mut ctx, "Ada".to_string(), 0, 0, 0).unwrap();

    // A second applicant presents the consumed invite.
    ctx.new_member = MEMBER + 1;
    ctx.citizen_account = fresh_citizen_slot();
    let before = ctx.clone();
    let second = use_governance_invite(&mut ctx, "Bob".to_string(), 1, 1, 1);
    assert_eq!(second, Err(GovernanceError::InviteAlreadyUsed));
    assert_eq!(ctx, before);
}

#[test]
fn redeem_after_expiry_fails_and_changes_nothing() {
    let mut ctx = fresh_ctx();
    ctx.now = ctx.invite.expires_at + 1;
    let before = ctx.clone();
    let result = use_governance_invite(&mut ctx, "Ada".to_string(), 0, 0, 0);
    assert_eq!(result, Err(GovernanceError::InviteExpired));
    assert_eq!(ctx, before);
}

#[test]
fn redeem_at_exact_expiry_succeeds() {
    let mut ctx = fresh_ctx();
    ctx.now = ctx.invite.expires_at;
    assert!(use_governance_invite(&mut ctx, "Ada".to_string(), 0, 0, 0).is_ok());
}

#[test]
fn redeem_against_foreign_pool_fails() {
    let mut ctx = fresh_ctx();
    ctx.invite.governance_pool = POOL_KEY + 1;
    let before = ctx.clone();
    let result = use_governance_invite(&mut ctx, "Ada".to_string(), 0, 0, 0);
    assert_eq!(result, Err(GovernanceError::InvalidInvite));
    assert_eq!(ctx, before);
}

#[test]
fn ownership_is_checked_before_usage_and_expiry() {
    // An invite that is foreign, already used and expired at once: the pool
    // mismatch is reported.
    let mut ctx = fresh_ctx();
    ctx.invite.governance_pool = POOL_KEY + 1;
    ctx.invite.is_used = true;
    ctx.now = ctx.invite.expires_at + 1;
    let result = use_governance_invite(&mut ctx, "Ada".to_string(), 0, 0, 0);
    assert_eq!(result, Err(GovernanceError::InvalidInvite));
}

#[test]
fn usage_is_checked_before_expiry() {
    let mut ctx = fresh_ctx();
    ctx.invite.is_used = true;
    ctx.now = ctx.invite.expires_at + 1;
    let result = use_governance_invite(&mut ctx, "Ada".to_string(), 0, 0, 0);
    assert_eq!(result, Err(GovernanceError::InviteAlreadyUsed));
}

#[test]
fn name_at_maximum_length_is_accepted() {
    let mut ctx = fresh_ctx();
    let name = "a".repeat(MAX_NAME_LENGTH);
    assert!(use_governance_invite(&mut ctx, name, 0, 0, 0).is_ok());
}

#[test]
fn name_over_maximum_length_fails_and_changes_nothing() {
    let mut ctx = fresh_ctx();
    let before = ctx.clone();
    let name = "a".repeat(MAX_NAME_LENGTH + 1);
    let result = use_governance_invite(&mut ctx, name, 0, 0, 0);
    assert_eq!(result, Err(GovernanceError::InvalidInput));
    assert_eq!(ctx, before);
}

#[test]
fn largest_valid_demographics_are_accepted() {
    let mut ctx = fresh_ctx();
    let result = use_governance_invite(&mut ctx, "Ada".to_string(), 7, 4, 3);
    assert!(result.is_ok());
}

#[test]
fn region_out_of_range_fails_and_changes_nothing() {
    let mut ctx = fresh_ctx();
    let before = ctx.clone();
    let result = use_governance_invite(&mut ctx, "Ada".to_string(), 8, 0, 0);
    assert_eq!(result, Err(GovernanceError::InvalidDemographic));
    assert_eq!(ctx, before);
}

#[test]
fn age_group_out_of_range_fails() {
    let mut ctx = fresh_ctx();
    let result = use_governance_invite(&mut ctx, "Ada".to_string(), 0, 5, 0);
    assert_eq!(result, Err(GovernanceError::InvalidDemographic));
}

#[test]
fn other_demographic_out_of_range_fails() {
    let mut ctx = fresh_ctx();
    let result = use_governance_invite(&mut ctx, "Ada".to_string(), 0, 0, 4);
    assert_eq!(result, Err(GovernanceError::InvalidDemographic));
}

#[test]
fn event_reports_token_balance_verbatim() {
    let mut ctx = fresh_ctx();
    ctx.member_token_amount = 123_456_789;
    let event = use_governance_invite(&mut ctx, "Ada".to_string(), 0, 0, 0).unwrap();
    assert_eq!(event.token_amount, 123_456_789);
    // The balance is only reported, never stored.
    assert_eq!(ctx.member_token_amount, 123_456_789);
}
