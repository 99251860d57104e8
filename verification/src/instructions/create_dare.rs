//! Creating a dare: the challenger states the terms and locks the escrow.

use vstd::prelude::*;
use crate::constants::MAX_DEADLINE_DURATION;
use crate::error::DareMeError;
use crate::identity::{zero_bytes, zero_hash, Identity};
use crate::state::{Dare, DareStatus, DareType, DareView, UserStats, UserStatsView, WinnerSelection};
use crate::vault::{Deposit, DepositView, Vault};

verus! {

/// What a creation acts on. The dare record itself does not exist yet: the
/// creation returns it.
#[derive(Clone, Copy, PartialEq, Eq, Debug)]
pub struct CreateDare {
    /// The caller, who funds the dare.
    pub challenger: Identity,
    pub vault: Vault,
    pub challenger_stats: UserStats,
    /// The derivation marker of the new record's key.
    pub dare_bump: u8,
    /// The derivation marker of the vault's key.
    pub vault_bump: u8,
    /// The derivation marker of the statistics record's key.
    pub challenger_stats_bump: u8,
}

/// The mathematical view of a [`CreateDare`].
pub struct CreateDareView {
    pub challenger: Seq<u8>,
    pub vault: nat,
    pub challenger_stats: UserStatsView,
    pub dare_bump: u8,
    pub vault_bump: u8,
    pub challenger_stats_bump: u8,
}

impl View for CreateDare {
    type V = CreateDareView;

    open spec fn view(&self) -> CreateDareView {
        CreateDareView {
            challenger: self.challenger@,
            vault: self.vault@,
            challenger_stats: self.challenger_stats@,
            dare_bump: self.dare_bump,
            vault_bump: self.vault_bump,
            challenger_stats_bump: self.challenger_stats_bump,
        }
    }
}

/// Why a creation at time `now` is rejected, if it is.
pub open spec fn rejection(
    ctx: CreateDareView,
    amount: nat,
    deadline: int,
    target_daree: Seq<u8>,
    now: int,
) -> Option<DareMeError> {
    if amount == 0 {
        Some(DareMeError::InvalidAmount)
    } else if deadline <= now {
        Some(DareMeError::DeadlinePassed)
    } else if deadline > now + MAX_DEADLINE_DURATION {
        Some(DareMeError::DeadlineTooFar)
    } else if target_daree != zero_bytes() && target_daree == ctx.challenger {
        Some(DareMeError::CannotAcceptOwnDare)
    } else if ctx.vault + amount > u64::MAX || !ctx.challenger_stats.created_fits(amount) {
        Some(DareMeError::ArithmeticOverflow)
    } else {
        None
    }
}

/// Whether a new dare starts out bound to `target_daree`: only a direct dare
/// can be aimed at someone, and the null identity aims at nobody. A public
/// bounty has no daree before a proof is submitted.
pub open spec fn binds_target(dare_type: DareType, target_daree: Seq<u8>) -> bool {
    dare_type == DareType::DirectDare && target_daree != zero_bytes()
}

/// The record that a creation at time `now` returns when it is not rejected.
pub open spec fn created(
    ctx: CreateDareView,
    dare_id: nat,
    description_hash: Seq<u8>,
    amount: nat,
    deadline: int,
    dare_type: DareType,
    winner_selection: WinnerSelection,
    target_daree: Seq<u8>,
    now: int,
) -> DareView {
    DareView {
        challenger: ctx.challenger,
        daree: if binds_target(dare_type, target_daree) {
            target_daree
        } else {
            zero_bytes()
        },
        has_daree: binds_target(dare_type, target_daree),
        dare_id,
        description_hash,
        amount,
        status: DareStatus::Created,
        dare_type,
        winner_selection,
        proof_hash: zero_bytes(),
        has_proof: false,
        created_at: now,
        deadline,
        accepted_at: 0,
        completed_at: 0,
        bump: ctx.dare_bump,
        vault_bump: ctx.vault_bump,
    }
}

/// The state after a creation that is not rejected: the vault holds `amount`
/// more, and the challenger's statistics, claimed if need be, count one more
/// dare and `amount` more spent.
pub open spec fn outcome(ctx: CreateDareView, amount: nat) -> CreateDareView {
    CreateDareView {
        vault: ctx.vault + amount,
        challenger_stats: ctx.challenger_stats.claimed_by(
            ctx.challenger,
            ctx.challenger_stats_bump,
        ).created(amount),
        ..ctx
    }
}

/// What a creation that is not rejected has the challenger pay in.
pub open spec fn deposit(ctx: CreateDareView, amount: nat) -> DepositView {
    DepositView { from: ctx.challenger, lamports: amount }
}

/// Whether `deadline` lies no further ahead of `now` than the longest
/// duration.
fn within_horizon(deadline: i64, now: i64) -> (within: bool)
    ensures
        within == (deadline <= now + MAX_DEADLINE_DURATION),
{
    match now.checked_add(MAX_DEADLINE_DURATION) {
        Some(limit) => deadline <= limit,
        None => true,
    }
}

/// Creates a dare at time `now` and locks `amount` into its vault.
///
/// The amount must be positive, the deadline must lie in the future by at
/// most 30 days, and a target, if one is named, must not be the challenger.
/// The new record starts in status `Created`; a direct dare is bound to its
/// target. A rejected call leaves everything as it was.
pub fn handler(
    ctx: &mut CreateDare,
    dare_id: u64,
    description_hash: [u8; 32],
    amount: u64,
    deadline: i64,
    dare_type: DareType,
    winner_selection: WinnerSelection,
    target_daree: Identity,
    now: i64,
) -> (r: Result<(Dare, Deposit), DareMeError>)
    ensures
        match r {
            Ok((dare, paid_in)) => {
                &&& rejection(
                    old(ctx)@,
                    amount as nat,
                    deadline as int,
                    target_daree@,
                    now as int,
                ) is None
                &&& dare@ == created(
                    old(ctx)@,
                    dare_id as nat,
                    description_hash@,
                    amount as nat,
                    deadline as int,
                    dare_type,
                    winner_selection,
                    target_daree@,
                    now as int,
                )
                &&& final(ctx)@ == outcome(old(ctx)@, amount as nat)
                &&& paid_in@ == deposit(old(ctx)@, amount as nat)
            },
            Err(e) => {
                &&& rejection(
                    old(ctx)@,
                    amount as nat,
                    deadline as int,
                    target_daree@,
                    now as int,
                ) == Some(e)
                &&& *final(ctx) == *old(ctx)
            },
        },
{
    if amount == 0 {
        return Err(DareMeError::InvalidAmount);
    }
    if deadline <= now {
        return Err(DareMeError::DeadlinePassed);
    }
    if !within_horizon(deadline, now) {
        return Err(DareMeError::DeadlineTooFar);
    }
    let has_target = !target_daree.is_null();
    if has_target && target_daree == ctx.challenger {
        return Err(DareMeError::CannotAcceptOwnDare);
    }
    let mut vault = ctx.vault;
    let paid_in = vault.lock(ctx.challenger, amount)?;
    let mut stats = ctx.challenger_stats;
    stats.claim(ctx.challenger, ctx.challenger_stats_bump);
    stats.record_created(amount)?;

    let bound = match dare_type {
        DareType::DirectDare => has_target,
        DareType::PublicBounty => false,
    };
    let dare = Dare {
        challenger: ctx.challenger,
        daree: if bound {
            target_daree
        } else {
            Identity::default()
        },
        has_daree: bound,
        dare_id,
        description_hash,
        amount,
        status: DareStatus::Created,
        dare_type,
        winner_selection,
        proof_hash: zero_hash(),
        has_proof: false,
        created_at: now,
        deadline,
        accepted_at: 0,
        completed_at: 0,
        bump: ctx.dare_bump,
        vault_bump: ctx.vault_bump,
    };
    ctx.vault = vault;
    ctx.challenger_stats = stats;
    Ok((dare, paid_in))
}

} // verus!
