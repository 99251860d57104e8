//! The permissionless crank that resolves a dare whose time has run out.
//!
//! Anyone may call it. Who receives the escrow follows from the dare alone:
//! the challenger once the deadline has passed without a pending proof, the
//! daree once a proof has waited out the dispute window. The caller names
//! the recipient, and the call is rejected unless that is the one the dare
//! implies.

use vstd::prelude::*;
use crate::constants::DISPUTE_WINDOW;
use crate::error::DareMeError;
use crate::identity::{zero_bytes, zero_hash, Identity};
use crate::state::{Dare, DareStatus, DareView, UserStats, UserStatsView};
use crate::vault::{Payout, PayoutView, Vault};

verus! {

/// What an expiry acts on.
#[derive(Clone, Copy, PartialEq, Eq, Debug)]
pub struct ExpireDare {
    /// Whoever turns the crank. No rule depends on it.
    pub payer: Identity,
    pub dare: Dare,
    pub vault: Vault,
    /// The account that the caller wants the escrow paid to.
    pub recipient: Identity,
    pub challenger_stats: UserStats,
    /// The daree's statistics, where the host found a record for the daree.
    pub daree_stats: Option<UserStats>,
}

/// The mathematical view of an [`ExpireDare`].
pub struct ExpireDareView {
    pub payer: Seq<u8>,
    pub dare: DareView,
    pub vault: nat,
    pub recipient: Seq<u8>,
    pub challenger_stats: UserStatsView,
    pub daree_stats: Option<UserStatsView>,
}

impl View for ExpireDare {
    type V = ExpireDareView;

    open spec fn view(&self) -> ExpireDareView {
        ExpireDareView {
            payer: self.payer@,
            dare: self.dare@,
            vault: self.vault@,
            recipient: self.recipient@,
            challenger_stats: self.challenger_stats@,
            daree_stats: match self.daree_stats {
                Some(stats) => Some(stats@),
                None => None,
            },
        }
    }
}

/// The statuses from which an expiry refunds the challenger.
pub open spec fn refunds(status: DareStatus) -> bool {
    status == DareStatus::Created || status == DareStatus::Active || status
        == DareStatus::Rejected
}

/// Why an expiry at time `now` is rejected, if it is.
pub open spec fn rejection(ctx: ExpireDareView, now: int) -> Option<DareMeError> {
    if refunds(ctx.dare.status) {
        if now <= ctx.dare.deadline {
            Some(DareMeError::DareNotExpired)
        } else if ctx.recipient != ctx.dare.challenger {
            Some(DareMeError::UnauthorizedChallenger)
        } else if ctx.dare.has_daree {
            match ctx.daree_stats {
                None => Some(DareMeError::MissingDareeStats),
                Some(stats) => if stats.failed_fits() {
                    None
                } else {
                    Some(DareMeError::ArithmeticOverflow)
                },
            }
        } else {
            None
        }
    } else if ctx.dare.status == DareStatus::ProofSubmitted {
        if now <= ctx.dare.deadline + DISPUTE_WINDOW {
            Some(DareMeError::DisputeWindowActive)
        } else if !(ctx.dare.has_daree && ctx.recipient == ctx.dare.daree) {
            Some(DareMeError::UnauthorizedDaree)
        } else {
            match ctx.daree_stats {
                None => Some(DareMeError::MissingDareeStats),
                Some(stats) => if stats.completed_fits(ctx.dare.amount) {
                    None
                } else {
                    Some(DareMeError::ArithmeticOverflow)
                },
            }
        }
    } else {
        Some(DareMeError::InvalidDareStatus)
    }
}

/// The state after an expiry at time `now` that is not rejected.
pub open spec fn outcome(ctx: ExpireDareView, now: int) -> ExpireDareView {
    if refunds(ctx.dare.status) {
        ExpireDareView {
            dare: DareView { status: DareStatus::Expired, ..ctx.dare },
            vault: 0,
            challenger_stats: ctx.challenger_stats.refunded(ctx.dare.amount),
            daree_stats: match ctx.daree_stats {
                Some(stats) if ctx.dare.has_daree => Some(stats.failed()),
                _ => ctx.daree_stats,
            },
            ..ctx
        }
    } else {
        ExpireDareView {
            dare: DareView {
                status: DareStatus::Completed,
                completed_at: now,
                proof_hash: zero_bytes(),
                has_proof: false,
                ..ctx.dare
            },
            vault: 0,
            daree_stats: match ctx.daree_stats {
                Some(stats) => Some(stats.completed(ctx.dare.amount)),
                None => None,
            },
            ..ctx
        }
    }
}

/// What an expiry that is not rejected pays out: the whole vault, to the
/// recipient that the caller named.
pub open spec fn payout(ctx: ExpireDareView) -> PayoutView {
    PayoutView { to: ctx.recipient, lamports: ctx.vault }
}

/// Whether `now` lies after the end of the dispute window of `deadline`.
fn dispute_window_over(deadline: i64, now: i64) -> (over: bool)
    ensures
        over == (now > deadline + DISPUTE_WINDOW),
{
    match deadline.checked_add(DISPUTE_WINDOW) {
        Some(end) => now > end,
        None => false,
    }
}

/// Resolves a dare at time `now`.
///
/// From `Created`, `Active` or `Rejected`, after the deadline, the escrow
/// goes back to the challenger, the challenger's spent total is lowered and
/// a bound daree is charged a failure. From `ProofSubmitted`, after the
/// dispute window, the escrow goes to the daree as if the challenger had
/// approved: the dare becomes `Completed` and its proof is cleared. A
/// rejected call leaves everything as it was.
pub fn handler(ctx: &mut ExpireDare, now: i64) -> (r: Result<Payout, DareMeError>)
    ensures
        match r {
            Ok(paid) => {
                &&& rejection(old(ctx)@, now as int) is None
                &&& final(ctx)@ == outcome(old(ctx)@, now as int)
                &&& paid@ == payout(old(ctx)@)
            },
            Err(e) => {
                &&& rejection(old(ctx)@, now as int) == Some(e)
                &&& *final(ctx) == *old(ctx)
            },
        },
{
    match ctx.dare.status {
        DareStatus::Created | DareStatus::Active | DareStatus::Rejected => {
            if now <= ctx.dare.deadline {
                return Err(DareMeError::DareNotExpired);
            }
            if ctx.recipient != ctx.dare.challenger {
                return Err(DareMeError::UnauthorizedChallenger);
            }
            let mut daree_stats = ctx.daree_stats;
            if ctx.dare.has_daree {
                match daree_stats {
                    None => {
                        return Err(DareMeError::MissingDareeStats);
                    },
                    Some(mut stats) => {
                        stats.record_failed()?;
                        daree_stats = Some(stats);
                    },
                }
            }
            ctx.dare.status = DareStatus::Expired;
            let paid = ctx.vault.release(ctx.recipient);
            ctx.challenger_stats.record_refund(ctx.dare.amount);
            ctx.daree_stats = daree_stats;
            Ok(paid)
        },
        DareStatus::ProofSubmitted => {
            if !dispute_window_over(ctx.dare.deadline, now) {
                return Err(DareMeError::DisputeWindowActive);
            }
            if !(ctx.dare.has_daree && ctx.recipient == ctx.dare.daree) {
                return Err(DareMeError::UnauthorizedDaree);
            }
            match ctx.daree_stats {
                None => Err(DareMeError::MissingDareeStats),
                Some(mut stats) => {
                    stats.record_completed(ctx.dare.amount)?;
                    ctx.dare.status = DareStatus::Completed;
                    ctx.dare.completed_at = now;
                    ctx.dare.proof_hash = zero_hash();
                    ctx.dare.has_proof = false;
                    let paid = ctx.vault.release(ctx.recipient);
                    ctx.daree_stats = Some(stats);
                    Ok(paid)
                },
            }
        },
        DareStatus::Completed
        | DareStatus::Expired
        | DareStatus::Cancelled
        | DareStatus::Refused => Err(DareMeError::InvalidDareStatus),
    }
}

} // verus!
