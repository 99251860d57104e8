//! The challenger's approval of a submitted proof.

use vstd::prelude::*;
use crate::error::DareMeError;
use crate::identity::{zero_bytes, zero_hash, Identity};
use crate::state::{Dare, DareStatus, DareView, UserStats, UserStatsView};
use crate::vault::{Payout, PayoutView, Vault};

verus! {

/// What an approval acts on.
#[derive(Clone, Copy, PartialEq, Eq, Debug)]
pub struct ApproveDare {
    /// The caller.
    pub challenger: Identity,
    pub dare: Dare,
    pub vault: Vault,
    /// The account that is to receive the escrow.
    pub daree: Identity,
    pub daree_stats: UserStats,
}

/// The mathematical view of an [`ApproveDare`].
pub struct ApproveDareView {
    pub challenger: Seq<u8>,
    pub dare: DareView,
    pub vault: nat,
    pub daree: Seq<u8>,
    pub daree_stats: UserStatsView,
}

impl View for ApproveDare {
    type V = ApproveDareView;

    open spec fn view(&self) -> ApproveDareView {
        ApproveDareView {
            challenger: self.challenger@,
            dare: self.dare@,
            vault: self.vault@,
            daree: self.daree@,
            daree_stats: self.daree_stats@,
        }
    }
}

/// Why an approval is rejected, if it is.
pub open spec fn rejection(ctx: ApproveDareView) -> Option<DareMeError> {
    if ctx.challenger != ctx.dare.challenger {
        Some(DareMeError::UnauthorizedChallenger)
    } else if !(ctx.dare.has_daree && ctx.daree == ctx.dare.daree) {
        Some(DareMeError::UnauthorizedDaree)
    } else if ctx.dare.status != DareStatus::ProofSubmitted {
        Some(DareMeError::InvalidDareStatus)
    } else if !ctx.daree_stats.completed_fits(ctx.dare.amount) {
        Some(DareMeError::ArithmeticOverflow)
    } else {
        None
    }
}

/// The state after an approval at time `now` that is not rejected. With the
/// verdict given, the dare holds no proof any more.
pub open spec fn outcome(ctx: ApproveDareView, now: int) -> ApproveDareView {
    ApproveDareView {
        dare: DareView {
            status: DareStatus::Completed,
            completed_at: now,
            proof_hash: zero_bytes(),
            has_proof: false,
            ..ctx.dare
        },
        vault: 0,
        daree_stats: ctx.daree_stats.completed(ctx.dare.amount),
        ..ctx
    }
}

/// What an approval that is not rejected pays out: the whole vault, to the
/// daree.
pub open spec fn payout(ctx: ApproveDareView) -> PayoutView {
    PayoutView { to: ctx.daree, lamports: ctx.vault }
}

/// Approves the submitted proof at time `now` and releases the escrow.
///
/// The caller must be the dare's challenger, the receiving account must be
/// the bound daree, and the dare must be in status `ProofSubmitted`. The
/// dare becomes `Completed` and its proof is cleared, the whole vault goes
/// to the daree, and the daree's statistics count one more completed dare
/// and the dare's amount as earned. A rejected call leaves everything as it
/// was.
pub fn handler(ctx: &mut ApproveDare, now: i64) -> (r: Result<Payout, DareMeError>)
    ensures
        match r {
            Ok(paid) => {
                &&& rejection(old(ctx)@) is None
                &&& final(ctx)@ == outcome(old(ctx)@, now as int)
                &&& paid@ == payout(old(ctx)@)
            },
            Err(e) => {
                &&& rejection(old(ctx)@) == Some(e)
                &&& *final(ctx) == *old(ctx)
            },
        },
{
    if ctx.challenger != ctx.dare.challenger {
        return Err(DareMeError::UnauthorizedChallenger);
    }
    if !(ctx.dare.has_daree && ctx.daree == ctx.dare.daree) {
        return Err(DareMeError::UnauthorizedDaree);
    }
    match ctx.dare.status {
        DareStatus::ProofSubmitted => {},
        DareStatus::Created
        | DareStatus::Active
        | DareStatus::Completed
        | DareStatus::Expired
        | DareStatus::Cancelled
        | DareStatus::Rejected
        | DareStatus::Refused => {
            return Err(DareMeError::InvalidDareStatus);
        },
    }
    let mut stats = ctx.daree_stats;
    stats.record_completed(ctx.dare.amount)?;

    ctx.dare.status = DareStatus::Completed;
    ctx.dare.completed_at = now;
    ctx.dare.proof_hash = zero_hash();
    ctx.dare.has_proof = false;
    let paid = ctx.vault.release(ctx.daree);
    ctx.daree_stats = stats;
    Ok(paid)
}

} // verus!
