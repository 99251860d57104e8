//! The challenger's withdrawal of a dare that nobody has taken up.

use vstd::prelude::*;
use crate::error::DareMeError;
use crate::identity::Identity;
use crate::state::{Dare, DareStatus, DareView, UserStats, UserStatsView};
use crate::vault::{Payout, PayoutView, Vault};

verus! {

/// What a cancellation acts on.
#[derive(Clone, Copy, PartialEq, Eq, Debug)]
pub struct CancelDare {
    /// The caller, who receives the refund.
    pub challenger: Identity,
    pub dare: Dare,
    pub vault: Vault,
    pub challenger_stats: UserStats,
}

/// The mathematical view of a [`CancelDare`].
pub struct CancelDareView {
    pub challenger: Seq<u8>,
    pub dare: DareView,
    pub vault: nat,
    pub challenger_stats: UserStatsView,
}

impl View for CancelDare {
    type V = CancelDareView;

    open spec fn view(&self) -> CancelDareView {
        CancelDareView {
            challenger: self.challenger@,
            dare: self.dare@,
            vault: self.vault@,
            challenger_stats: self.challenger_stats@,
        }
    }
}

/// Why a cancellation is rejected, if it is.
pub open spec fn rejection(ctx: CancelDareView) -> Option<DareMeError> {
    if ctx.challenger != ctx.dare.challenger {
        Some(DareMeError::UnauthorizedChallenger)
    } else if ctx.dare.status != DareStatus::Created {
        Some(DareMeError::InvalidDareStatus)
    } else {
        None
    }
}

/// The state after a cancellation that is not rejected.
pub open spec fn outcome(ctx: CancelDareView) -> CancelDareView {
    CancelDareView {
        dare: DareView { status: DareStatus::Cancelled, ..ctx.dare },
        vault: 0,
        challenger_stats: ctx.challenger_stats.refunded(ctx.dare.amount),
        ..ctx
    }
}

/// What a cancellation that is not rejected pays out: the whole vault, to
/// the challenger.
pub open spec fn payout(ctx: CancelDareView) -> PayoutView {
    PayoutView { to: ctx.challenger, lamports: ctx.vault }
}

/// Cancels a dare and refunds the escrow.
///
/// The caller must be the dare's challenger and the dare must be in status
/// `Created`. The dare becomes `Cancelled`, the whole vault goes back to the
/// challenger, and the challenger's spent total is lowered by the dare's
/// amount, stopping at zero. A rejected call leaves everything as it was.
pub fn handler(ctx: &mut CancelDare) -> (r: Result<Payout, DareMeError>)
    ensures
        match r {
            Ok(paid) => {
                &&& rejection(old(ctx)@) is None
                &&& final(ctx)@ == outcome(old(ctx)@)
                &&& paid@ == payout(old(ctx)@)
            },
            Err(e) => {
                &&& rejection(old(ctx)@) == Some(e)
                &&& *final(ctx) == *old(ctx)
            },
        },
{
    if ctx.challenger != ctx.dare.challenger {
        return Err(DareMeError::UnauthorizedChallenger);
    }
    match ctx.dare.status {
        DareStatus::Created => {},
        DareStatus::Active
        | DareStatus::ProofSubmitted
        | DareStatus::Completed
        | DareStatus::Expired
        | DareStatus::Cancelled
        | DareStatus::Rejected
        | DareStatus::Refused => {
            return Err(DareMeError::InvalidDareStatus);
        },
    }
    ctx.dare.status = DareStatus::Cancelled;
    let paid = ctx.vault.release(ctx.challenger);
    ctx.challenger_stats.record_refund(ctx.dare.amount);
    Ok(paid)
}

} // verus!
