use dareme::contract;
use dareme::error::DareMeError;
use dareme::identity::Identity;
use dareme::instructions::{
    AcceptDare, ApproveDare, CancelDare, CreateDare, ExpireDare, RefuseDare, RejectDare,
    SubmitProof,
};
use dareme::state::{Dare, DareStatus, DareType, UserStats, WinnerSelection};
use dareme::vault::Vault;

const NOW: i64 = 1_700_000_000;
const HOUR: i64 = 3600;

fn id(n: u8) -> Identity {
    Identity::new([n; 32])
}

fn create(
    challenger: Identity,
    stats: UserStats,
    amount: u64,
    deadline: i64,
    dare_type: DareType,
    target: Identity,
) -> (Dare, Vault, UserStats) {
    let mut ctx = CreateDare {
        challenger,
        vault: Vault { lamports: 0 },
        challenger_stats: stats,
        dare_bump: 254,
        vault_bump: 253,
        challenger_stats_bump: 252,
    };
    let (dare, paid_in) = contract::create_dare(
        &mut ctx,
        7,
        [9u8; 32],
        amount,
        deadline,
        dare_type,
        WinnerSelection::ChallengerSelect,
        target,
        NOW,
    )
    .unwrap();
    assert_eq!(paid_in.from, challenger);
    assert_eq!(paid_in.lamports, amount);
    (dare, ctx.vault, ctx.challenger_stats)
}

#[test]
fn direct_dare_runs_from_creation_to_approval() {
    let a = id(1);
    let b = id(2);
    let (dare, vault, a_stats) = create(
        a,
        UserStats::unclaimed(),
        100,
        NOW + HOUR,
        DareType::DirectDare,
        Identity::default(),
    );
    assert_eq!(vault.lamports, 100);
    assert_eq!(dare.status, DareStatus::Created);
    assert!(!dare.has_daree);
    assert_eq!(a_stats.user, a);
    assert_eq!(a_stats.dares_created, 1);
    assert_eq!(a_stats.total_spent, 100);

    let mut accept =
        AcceptDare { daree: b, dare, daree_stats: UserStats::unclaimed(), daree_stats_bump: 251 };
    contract::accept_dare(&mut accept, NOW + 10).unwrap();
    assert_eq!(accept.dare.status, DareStatus::Active);
    assert_eq!(accept.dare.daree, b);
    assert!(accept.dare.has_daree);
    assert_eq!(accept.dare.accepted_at, NOW + 10);
    assert_eq!(accept.daree_stats.user, b);
    assert_eq!(accept.daree_stats.bump, 251);
    assert_eq!(accept.daree_stats.dares_accepted, 1);

    let mut submit = SubmitProof {
        submitter: b,
        dare: accept.dare,
        submitter_stats: accept.daree_stats,
        submitter_stats_bump: 251,
    };
    contract::submit_proof(&mut submit, [5u8; 32], NOW + 20).unwrap();
    assert_eq!(submit.dare.status, DareStatus::ProofSubmitted);
    assert_eq!(submit.dare.proof_hash, [5u8; 32]);
    assert!(submit.dare.has_proof);
    assert_eq!(submit.submitter_stats.dares_accepted, 1);

    let earned_before = submit.submitter_stats.total_earned;
    let completed_before = submit.submitter_stats.dares_completed;
    let mut approve = ApproveDare {
        challenger: a,
        dare: submit.dare,
        vault,
        daree: b,
        daree_stats: submit.submitter_stats,
    };
    let paid = contract::approve_dare(&mut approve, NOW + 30).unwrap();
    assert_eq!(approve.vault.lamports, 0);
    assert_eq!(paid.to, b);
    assert_eq!(paid.lamports, 100);
    assert_eq!(approve.daree_stats.total_earned, earned_before + 100);
    assert_eq!(approve.daree_stats.dares_completed, completed_before + 1);
    assert_eq!(approve.dare.status, DareStatus::Completed);
    assert_eq!(approve.dare.completed_at, NOW + 30);
    assert!(!approve.dare.has_proof);
    assert_eq!(approve.dare.proof_hash, [0u8; 32]);
}

#[test]
fn targeted_dare_rejects_another_daree() {
    let a = id(1);
    let c = id(3);
    let d = id(4);
    let (dare, vault, _) =
        create(a, UserStats::unclaimed(), 50, NOW + HOUR, DareType::DirectDare, c);
    assert!(dare.has_daree);
    assert_eq!(dare.daree, c);

    let mut accept =
        AcceptDare { daree: d, dare, daree_stats: UserStats::unclaimed(), daree_stats_bump: 9 };
    let before = accept;
    assert_eq!(contract::accept_dare(&mut accept, NOW + 10), Err(DareMeError::UnauthorizedDaree));
    assert_eq!(accept, before);
    assert_eq!(accept.dare.status, DareStatus::Created);
    assert_eq!(vault.lamports, 50);

    let mut accept =
        AcceptDare { daree: c, dare, daree_stats: UserStats::unclaimed(), daree_stats_bump: 9 };
    assert_eq!(contract::accept_dare(&mut accept, NOW + 10), Ok(()));
    assert_eq!(accept.dare.status, DareStatus::Active);
}

#[test]
fn proof_after_the_deadline_is_rejected() {
    let a = id(1);
    let b = id(2);
    let (dare, _, _) =
        create(a, UserStats::unclaimed(), 75, NOW + 1, DareType::PublicBounty, Identity::default());

    let mut submit = SubmitProof {
        submitter: b,
        dare,
        submitter_stats: UserStats::unclaimed(),
        submitter_stats_bump: 1,
    };
    let before = submit;
    assert_eq!(
        contract::submit_proof(&mut submit, [5u8; 32], NOW + 2),
        Err(DareMeError::DareExpired)
    );
    assert_eq!(submit, before);
    // The deadline itself is already too late.
    assert_eq!(
        contract::submit_proof(&mut submit, [5u8; 32], NOW + 1),
        Err(DareMeError::DareExpired)
    );
    assert_eq!(contract::submit_proof(&mut submit, [5u8; 32], NOW), Ok(()));
}

#[test]
fn unanswered_proof_is_released_after_the_dispute_window() {
    let a = id(1);
    let b = id(2);
    let stranger = id(77);
    let deadline = NOW + HOUR;
    let (dare, vault, a_stats) =
        create(a, UserStats::unclaimed(), 120, deadline, DareType::PublicBounty, Identity::default());

    let mut submit = SubmitProof {
        submitter: b,
        dare,
        submitter_stats: UserStats::unclaimed(),
        submitter_stats_bump: 1,
    };
    contract::submit_proof(&mut submit, [5u8; 32], NOW + 5).unwrap();
    assert_eq!(submit.dare.daree, b);
    assert!(submit.dare.has_daree);
    assert_eq!(submit.submitter_stats.dares_accepted, 1);

    let mut expire = ExpireDare {
        payer: stranger,
        dare: submit.dare,
        vault,
        recipient: b,
        challenger_stats: a_stats,
        daree_stats: Some(submit.submitter_stats),
    };
    let before = expire;
    // Still inside the window, up to and including its last second.
    assert_eq!(
        contract::expire_dare(&mut expire, deadline + 1),
        Err(DareMeError::DisputeWindowActive)
    );
    assert_eq!(
        contract::expire_dare(&mut expire, deadline + 72 * HOUR),
        Err(DareMeError::DisputeWindowActive)
    );
    assert_eq!(expire, before);

    let at = deadline + 72 * HOUR + 1;
    let paid = contract::expire_dare(&mut expire, at).unwrap();
    assert_eq!(paid.to, b);
    assert_eq!(paid.lamports, 120);
    assert_eq!(expire.vault.lamports, 0);
    assert_eq!(expire.dare.status, DareStatus::Completed);
    assert_eq!(expire.dare.completed_at, at);
    assert!(!expire.dare.has_proof);
    assert_eq!(expire.dare.proof_hash, [0u8; 32]);
    let b_stats = expire.daree_stats.unwrap();
    assert_eq!(b_stats.dares_completed, 1);
    assert_eq!(b_stats.total_earned, 120);
    // The challenger's statistics are not touched by a release.
    assert_eq!(expire.challenger_stats, a_stats);
}

#[test]
fn targeted_daree_refuses_and_the_challenger_is_refunded() {
    let a = id(1);
    let e = id(5);
    let (dare, vault, a_stats) =
        create(a, UserStats::unclaimed(), 75, NOW + HOUR, DareType::DirectDare, e);
    assert_eq!(a_stats.total_spent, 75);

    let mut refuse =
        RefuseDare { daree: e, dare, vault, challenger: a, challenger_stats: a_stats };
    let paid = contract::refuse_dare(&mut refuse).unwrap();
    assert_eq!(paid.to, a);
    assert_eq!(paid.lamports, 75);
    assert_eq!(refuse.vault.lamports, 0);
    assert_eq!(refuse.dare.status, DareStatus::Refused);
    assert_eq!(refuse.challenger_stats.total_spent, 0);
    assert_eq!(refuse.challenger_stats.dares_created, 1);
}

#[test]
fn refund_of_more_than_was_spent_stops_at_zero() {
    let a = id(1);
    let e = id(5);
    let (dare, vault, mut a_stats) =
        create(a, UserStats::unclaimed(), 75, NOW + HOUR, DareType::DirectDare, e);
    a_stats.total_spent = 40;
    let mut refuse =
        RefuseDare { daree: e, dare, vault, challenger: a, challenger_stats: a_stats };
    contract::refuse_dare(&mut refuse).unwrap();
    assert_eq!(refuse.challenger_stats.total_spent, 0);

    let (dare, vault, mut a_stats) =
        create(a, UserStats::unclaimed(), 75, NOW + HOUR, DareType::DirectDare, e);
    a_stats.total_spent = 200;
    let mut refuse =
        RefuseDare { daree: e, dare, vault, challenger: a, challenger_stats: a_stats };
    contract::refuse_dare(&mut refuse).unwrap();
    assert_eq!(refuse.challenger_stats.total_spent, 125);
}

#[test]
fn challenger_cancels_before_anyone_accepts() {
    let a = id(1);
    let (dare, vault, a_stats) = create(
        a,
        UserStats::unclaimed(),
        10,
        NOW + HOUR,
        DareType::DirectDare,
        Identity::default(),
    );
    let mut cancel = CancelDare { challenger: a, dare, vault, challenger_stats: a_stats };
    let paid = contract::cancel_dare(&mut cancel).unwrap();
    assert_eq!(paid.to, a);
    assert_eq!(paid.lamports, 10);
    assert_eq!(cancel.vault.lamports, 0);
    assert_eq!(cancel.dare.status, DareStatus::Cancelled);
    assert_eq!(cancel.challenger_stats.total_spent, 0);
    assert_eq!(cancel.challenger_stats.dares_created, 1);
}

#[test]
fn rejected_proof_can_be_submitted_again() {
    let a = id(1);
    let b = id(2);
    let (dare, _, _) = create(
        a,
        UserStats::unclaimed(),
        10,
        NOW + HOUR,
        DareType::DirectDare,
        Identity::default(),
    );
    let mut accept =
        AcceptDare { daree: b, dare, daree_stats: UserStats::unclaimed(), daree_stats_bump: 3 };
    contract::accept_dare(&mut accept, NOW + 1).unwrap();
    let mut submit = SubmitProof {
        submitter: b,
        dare: accept.dare,
        submitter_stats: accept.daree_stats,
        submitter_stats_bump: 3,
    };
    contract::submit_proof(&mut submit, [1u8; 32], NOW + 2).unwrap();

    let mut reject = RejectDare { challenger: a, dare: submit.dare };
    contract::reject_dare(&mut reject).unwrap();
    assert_eq!(reject.dare.status, DareStatus::Rejected);
    assert_eq!(reject.dare.proof_hash, [0u8; 32]);
    assert!(!reject.dare.has_proof);
    assert!(reject.dare.has_daree);
    assert_eq!(reject.dare.daree, b);

    let mut again = SubmitProof {
        submitter: b,
        dare: reject.dare,
        submitter_stats: submit.submitter_stats,
        submitter_stats_bump: 3,
    };
    contract::submit_proof(&mut again, [2u8; 32], NOW + 3).unwrap();
    assert_eq!(again.dare.status, DareStatus::ProofSubmitted);
    assert_eq!(again.dare.proof_hash, [2u8; 32]);
    assert!(again.dare.has_proof);
    // A direct dare counts its acceptance once, not per submission.
    assert_eq!(again.submitter_stats.dares_accepted, 1);
}

#[test]
fn expired_active_dare_refunds_and_charges_the_daree() {
    let a = id(1);
    let b = id(2);
    let deadline = NOW + HOUR;
    let (dare, vault, a_stats) =
        create(a, UserStats::unclaimed(), 60, deadline, DareType::DirectDare, Identity::default());
    let mut accept =
        AcceptDare { daree: b, dare, daree_stats: UserStats::unclaimed(), daree_stats_bump: 3 };
    contract::accept_dare(&mut accept, NOW + 1).unwrap();

    let mut expire = ExpireDare {
        payer: id(50),
        dare: accept.dare,
        vault,
        recipient: a,
        challenger_stats: a_stats,
        daree_stats: Some(accept.daree_stats),
    };
    let before = expire;
    // The deadline itself has not passed yet.
    assert_eq!(contract::expire_dare(&mut expire, deadline), Err(DareMeError::DareNotExpired));
    assert_eq!(expire, before);

    let paid = contract::expire_dare(&mut expire, deadline + 1).unwrap();
    assert_eq!(paid.to, a);
    assert_eq!(paid.lamports, 60);
    assert_eq!(expire.vault.lamports, 0);
    assert_eq!(expire.dare.status, DareStatus::Expired);
    assert_eq!(expire.dare.completed_at, 0);
    assert_eq!(expire.challenger_stats.total_spent, 0);
    let b_stats = expire.daree_stats.unwrap();
    assert_eq!(b_stats.dares_failed, 1);
    assert_eq!(b_stats.dares_accepted, 1);
}

#[test]
fn expired_untaken_dare_needs_no_daree_statistics() {
    let a = id(1);
    let deadline = NOW + HOUR;
    let (dare, vault, a_stats) =
        create(a, UserStats::unclaimed(), 60, deadline, DareType::DirectDare, Identity::default());
    let mut expire = ExpireDare {
        payer: a,
        dare,
        vault,
        recipient: a,
        challenger_stats: a_stats,
        daree_stats: None,
    };
    let paid = contract::expire_dare(&mut expire, deadline + 1).unwrap();
    assert_eq!(paid.lamports, 60);
    assert_eq!(expire.daree_stats, None);
    assert_eq!(expire.dare.status, DareStatus::Expired);

    // Statistics that are handed in although nobody is bound stay as they are.
    let bystander = UserStats::unclaimed();
    let mut expire = ExpireDare {
        payer: a,
        dare,
        vault,
        recipient: a,
        challenger_stats: a_stats,
        daree_stats: Some(bystander),
    };
    contract::expire_dare(&mut expire, deadline + 1).unwrap();
    assert_eq!(expire.daree_stats, Some(bystander));
}

#[test]
fn expired_rejected_dare_refunds_the_challenger() {
    let a = id(1);
    let b = id(2);
    let deadline = NOW + HOUR;
    let (dare, vault, a_stats) =
        create(a, UserStats::unclaimed(), 60, deadline, DareType::PublicBounty, Identity::default());
    let mut submit = SubmitProof {
        submitter: b,
        dare,
        submitter_stats: UserStats::unclaimed(),
        submitter_stats_bump: 1,
    };
    contract::submit_proof(&mut submit, [1u8; 32], NOW + 1).unwrap();
    let mut reject = RejectDare { challenger: a, dare: submit.dare };
    contract::reject_dare(&mut reject).unwrap();

    let mut expire = ExpireDare {
        payer: b,
        dare: reject.dare,
        vault,
        recipient: a,
        challenger_stats: a_stats,
        daree_stats: Some(submit.submitter_stats),
    };
    let paid = contract::expire_dare(&mut expire, deadline + 1).unwrap();
    assert_eq!(paid.to, a);
    assert_eq!(paid.lamports, 60);
    assert_eq!(expire.dare.status, DareStatus::Expired);
    assert_eq!(expire.daree_stats.unwrap().dares_failed, 1);
}

#[test]
fn public_bounty_goes_to_whoever_resubmits() {
    let a = id(1);
    let b = id(2);
    let c = id(3);
    let (dare, _, _) = create(
        a,
        UserStats::unclaimed(),
        60,
        NOW + HOUR,
        DareType::PublicBounty,
        Identity::default(),
    );
    let mut submit = SubmitProof {
        submitter: b,
        dare,
        submitter_stats: UserStats::unclaimed(),
        submitter_stats_bump: 1,
    };
    contract::submit_proof(&mut submit, [1u8; 32], NOW + 1).unwrap();
    let mut reject = RejectDare { challenger: a, dare: submit.dare };
    contract::reject_dare(&mut reject).unwrap();

    let mut other = SubmitProof {
        submitter: c,
        dare: reject.dare,
        submitter_stats: UserStats::unclaimed(),
        submitter_stats_bump: 2,
    };
    contract::submit_proof(&mut other, [2u8; 32], NOW + 2).unwrap();
    assert_eq!(other.dare.daree, c);
    assert_eq!(other.submitter_stats.user, c);
    assert_eq!(other.submitter_stats.dares_accepted, 1);
}
