use dareme::constants::{DISPUTE_WINDOW, MAX_DEADLINE_DURATION};
use dareme::contract;
use dareme::error::DareMeError;
use dareme::identity::Identity;
use dareme::instructions::create_dare;
use dareme::instructions::CreateDare;
use dareme::state::{DareStatus, DareType, UserStats, WinnerSelection};
use dareme::vault::Vault;

const T0: i64 = 1_700_000_000;

fn who(n: u8) -> Identity {
    Identity::new([n; 32])
}

fn fresh(challenger: Identity) -> CreateDare {
    CreateDare {
        challenger,
        vault: Vault { lamports: 0 },
        challenger_stats: UserStats::unclaimed(),
        dare_bump: 11,
        vault_bump: 12,
        challenger_stats_bump: 13,
    }
}

fn try_create(
    ctx: &mut CreateDare,
    amount: u64,
    deadline: i64,
    dare_type: DareType,
    target: Identity,
    now: i64,
) -> Result<dareme::state::Dare, DareMeError> {
    contract::create_dare(
        ctx,
        42,
        [3u8; 32],
        amount,
        deadline,
        dare_type,
        WinnerSelection::CommunityVote,
        target,
        now,
    )
    .map(|(dare, _)| dare)
}

#[test]
fn constants_have_their_values() {
    assert_eq!(MAX_DEADLINE_DURATION, 30 * 24 * 60 * 60);
    assert_eq!(DISPUTE_WINDOW, 72 * 60 * 60);
    assert_eq!(&dareme::constants::DARE_SEED, b"dare");
    assert_eq!(&dareme::constants::VAULT_SEED, b"vault");
    assert_eq!(&dareme::constants::USER_STATS_SEED, b"user_stats");
    assert_eq!(dareme::state::Dare::SPACE, 191);
    assert_eq!(dareme::state::UserStats::SPACE, 73);
}

#[test]
fn created_dare_holds_what_was_asked() {
    let a = who(1);
    let mut ctx = fresh(a);
    let dare =
        try_create(&mut ctx, 500, T0 + 60, DareType::DirectDare, Identity::default(), T0).unwrap();
    assert_eq!(dare.challenger, a);
    assert_eq!(dare.daree, Identity::default());
    assert!(!dare.has_daree);
    assert_eq!(dare.dare_id, 42);
    assert_eq!(dare.description_hash, [3u8; 32]);
    assert_eq!(dare.amount, 500);
    assert_eq!(dare.status, DareStatus::Created);
    assert_eq!(dare.dare_type, DareType::DirectDare);
    assert_eq!(dare.winner_selection, WinnerSelection::CommunityVote);
    assert_eq!(dare.proof_hash, [0u8; 32]);
    assert!(!dare.has_proof);
    assert_eq!(dare.created_at, T0);
    assert_eq!(dare.deadline, T0 + 60);
    assert_eq!(dare.accepted_at, 0);
    assert_eq!(dare.completed_at, 0);
    assert_eq!(dare.bump, 11);
    assert_eq!(dare.vault_bump, 12);

    assert_eq!(ctx.vault.lamports, 500);
    assert_eq!(ctx.challenger_stats.user, a);
    assert_eq!(ctx.challenger_stats.bump, 13);
    assert_eq!(ctx.challenger_stats.dares_created, 1);
    assert_eq!(ctx.challenger_stats.total_spent, 500);
    assert_eq!(ctx.challenger_stats.dares_accepted, 0);
    assert_eq!(ctx.challenger_stats.total_earned, 0);
}

#[test]
fn handler_and_operation_agree() {
    let a = who(1);
    let mut left = fresh(a);
    let mut right = fresh(a);
    let l = create_dare::handler(
        &mut left,
        1,
        [0u8; 32],
        5,
        T0 + 5,
        DareType::PublicBounty,
        WinnerSelection::ChallengerSelect,
        Identity::default(),
        T0,
    );
    let r = contract::create_dare(
        &mut right,
        1,
        [0u8; 32],
        5,
        T0 + 5,
        DareType::PublicBounty,
        WinnerSelection::ChallengerSelect,
        Identity::default(),
        T0,
    );
    assert_eq!(l, r);
    assert_eq!(left, right);
}

#[test]
fn zero_amount_is_invalid() {
    let mut ctx = fresh(who(1));
    let before = ctx;
    assert_eq!(
        try_create(&mut ctx, 0, T0 + 60, DareType::DirectDare, Identity::default(), T0),
        Err(DareMeError::InvalidAmount)
    );
    assert_eq!(ctx, before);
    // The amount is looked at before the deadline.
    assert_eq!(
        try_create(&mut ctx, 0, T0 - 60, DareType::DirectDare, Identity::default(), T0),
        Err(DareMeError::InvalidAmount)
    );
}

#[test]
fn deadline_must_lie_ahead() {
    let mut ctx = fresh(who(1));
    let before = ctx;
    assert_eq!(
        try_create(&mut ctx, 1, T0, DareType::DirectDare, Identity::default(), T0),
        Err(DareMeError::DeadlinePassed)
    );
    assert_eq!(
        try_create(&mut ctx, 1, T0 - 1, DareType::DirectDare, Identity::default(), T0),
        Err(DareMeError::DeadlinePassed)
    );
    assert_eq!(ctx, before);
    assert!(try_create(&mut ctx, 1, T0 + 1, DareType::DirectDare, Identity::default(), T0).is_ok());
}

#[test]
fn deadline_may_lie_thirty_days_ahead_and_no_more() {
    let mut ctx = fresh(who(1));
    let before = ctx;
    assert_eq!(
        try_create(
            &mut ctx,
            1,
            T0 + MAX_DEADLINE_DURATION + 1,
            DareType::DirectDare,
            Identity::default(),
            T0
        ),
        Err(DareMeError::DeadlineTooFar)
    );
    assert_eq!(ctx, before);
    let dare = try_create(
        &mut ctx,
        1,
        T0 + MAX_DEADLINE_DURATION,
        DareType::DirectDare,
        Identity::default(),
        T0,
    )
    .unwrap();
    assert_eq!(dare.deadline - dare.created_at, 2_592_000);
}

#[test]
fn horizon_is_judged_without_overflow() {
    // Thirty days after `now` lies beyond the largest time: every later
    // deadline is within the horizon.
    let mut ctx = fresh(who(1));
    let now = i64::MAX - 10;
    assert!(try_create(&mut ctx, 1, i64::MAX, DareType::DirectDare, Identity::default(), now)
        .is_ok());
    // A deadline that is further from `now` than any i64 can say.
    let mut ctx = fresh(who(1));
    assert_eq!(
        try_create(&mut ctx, 1, i64::MAX, DareType::DirectDare, Identity::default(), i64::MIN),
        Err(DareMeError::DeadlineTooFar)
    );
    let mut ctx = fresh(who(1));
    let dare = try_create(
        &mut ctx,
        1,
        i64::MIN + MAX_DEADLINE_DURATION,
        DareType::DirectDare,
        Identity::default(),
        i64::MIN,
    )
    .unwrap();
    assert_eq!(dare.created_at, i64::MIN);
}

#[test]
fn challenger_cannot_target_themselves() {
    let a = who(1);
    let mut ctx = fresh(a);
    let before = ctx;
    assert_eq!(
        try_create(&mut ctx, 1, T0 + 60, DareType::DirectDare, a, T0),
        Err(DareMeError::CannotAcceptOwnDare)
    );
    assert_eq!(
        try_create(&mut ctx, 1, T0 + 60, DareType::PublicBounty, a, T0),
        Err(DareMeError::CannotAcceptOwnDare)
    );
    assert_eq!(ctx, before);
}

#[test]
fn null_challenger_naming_nobody_is_not_self_targeting() {
    let nobody = Identity::default();
    let mut ctx = fresh(nobody);
    let dare = try_create(&mut ctx, 1, T0 + 60, DareType::DirectDare, nobody, T0).unwrap();
    assert!(!dare.has_daree);
}

#[test]
fn direct_dare_is_bound_to_its_target() {
    let a = who(1);
    let c = who(3);
    let mut ctx = fresh(a);
    let dare = try_create(&mut ctx, 1, T0 + 60, DareType::DirectDare, c, T0).unwrap();
    assert!(dare.has_daree);
    assert_eq!(dare.daree, c);
}

#[test]
fn public_bounty_starts_without_a_daree() {
    let a = who(1);
    let c = who(3);
    let mut ctx = fresh(a);
    let dare = try_create(&mut ctx, 1, T0 + 60, DareType::PublicBounty, c, T0).unwrap();
    assert!(!dare.has_daree);
    assert_eq!(dare.daree, Identity::default());
    assert_eq!(dare.dare_type, DareType::PublicBounty);
}

#[test]
fn overflowing_totals_abort_the_creation() {
    let a = who(1);
    let mut ctx = fresh(a);
    ctx.challenger_stats.dares_created = u32::MAX;
    let before = ctx;
    assert_eq!(
        try_create(&mut ctx, 1, T0 + 60, DareType::DirectDare, Identity::default(), T0),
        Err(DareMeError::ArithmeticOverflow)
    );
    assert_eq!(ctx, before);

    let mut ctx = fresh(a);
    ctx.challenger_stats.total_spent = u64::MAX - 4;
    let before = ctx;
    assert_eq!(
        try_create(&mut ctx, 5, T0 + 60, DareType::DirectDare, Identity::default(), T0),
        Err(DareMeError::ArithmeticOverflow)
    );
    assert_eq!(ctx, before);
    assert!(try_create(&mut ctx, 4, T0 + 60, DareType::DirectDare, Identity::default(), T0)
        .is_ok());
    assert_eq!(ctx.challenger_stats.total_spent, u64::MAX);

    let mut ctx = fresh(a);
    ctx.vault.lamports = u64::MAX;
    let before = ctx;
    assert_eq!(
        try_create(&mut ctx, 1, T0 + 60, DareType::DirectDare, Identity::default(), T0),
        Err(DareMeError::ArithmeticOverflow)
    );
    assert_eq!(ctx, before);
}

#[test]
fn claimed_statistics_keep_their_owner() {
    let a = who(1);
    let mut ctx = fresh(a);
    ctx.challenger_stats.user = a;
    ctx.challenger_stats.bump = 200;
    ctx.challenger_stats.dares_created = 4;
    ctx.challenger_stats.total_spent = 1000;
    try_create(&mut ctx, 50, T0 + 60, DareType::DirectDare, Identity::default(), T0).unwrap();
    assert_eq!(ctx.challenger_stats.user, a);
    assert_eq!(ctx.challenger_stats.bump, 200);
    assert_eq!(ctx.challenger_stats.dares_created, 5);
    assert_eq!(ctx.challenger_stats.total_spent, 1050);
}

#[test]
fn dust_in_the_vault_is_kept_and_paid_out_with_the_escrow() {
    let a = who(1);
    let mut ctx = fresh(a);
    ctx.vault.lamports = 3;
    let dare =
        try_create(&mut ctx, 50, T0 + 60, DareType::DirectDare, Identity::default(), T0).unwrap();
    assert_eq!(ctx.vault.lamports, 53);
    let mut cancel = dareme::instructions::CancelDare {
        challenger: a,
        dare,
        vault: ctx.vault,
        challenger_stats: ctx.challenger_stats,
    };
    let paid = contract::cancel_dare(&mut cancel).unwrap();
    assert_eq!(paid.lamports, 53);
    assert_eq!(cancel.vault.lamports, 0);
    assert_eq!(cancel.challenger_stats.total_spent, 0);
}
