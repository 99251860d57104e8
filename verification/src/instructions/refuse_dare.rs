//! The targeted daree's refusal of a direct dare.

use vstd::prelude::*;
use crate::error::DareMeError;
use crate::identity::Identity;
use crate::state::{Dare, DareStatus, DareType, DareView, UserStats, UserStatsView};
use crate::vault::{Payout, PayoutView, Vault};

verus! {

/// What a refusal acts on.
#[derive(Clone, Copy, PartialEq, Eq, Debug)]
pub struct RefuseDare {
    /// The caller, who declines the dare.
    pub daree: Identity,
    pub dare: Dare,
    pub vault: Vault,
    /// The account that is to receive the refund.
    pub challenger: Identity,
    pub challenger_stats: UserStats,
}

/// The mathematical view of a [`RefuseDare`].
pub struct RefuseDareView {
    pub daree: Seq<u8>,
    pub dare: DareView,
    pub vault: nat,
    pub challenger: Seq<u8>,
    pub challenger_stats: UserStatsView,
}

impl View for RefuseDare {
    type V = RefuseDareView;

    open spec fn view(&self) -> RefuseDareView {
        RefuseDareView {
            daree: self.daree@,
            dare: self.dare@,
            vault: self.vault@,
            challenger: self.challenger@,
            challenger_stats: self.challenger_stats@,
        }
    }
}

/// Why a refusal is rejected, if it is.
pub open spec fn rejection(ctx: RefuseDareView) -> Option<DareMeError> {
    if ctx.challenger != ctx.dare.challenger {
        Some(DareMeError::UnauthorizedChallenger)
    } else if ctx.dare.dare_type != DareType::DirectDare {
        Some(DareMeError::InvalidDareType)
    } else if ctx.dare.status != DareStatus::Created {
        Some(DareMeError::InvalidDareStatus)
    } else if !ctx.dare.has_daree {
        Some(DareMeError::NotTargetedDare)
    } else if ctx.daree != ctx.dare.daree {
        Some(DareMeError::UnauthorizedDaree)
    } else {
        None
    }
}

/// The state after a refusal that is not rejected.
pub open spec fn outcome(ctx: RefuseDareView) -> RefuseDareView {
    RefuseDareView {
        dare: DareView { status: DareStatus::Refused, ..ctx.dare },
        vault: 0,
        challenger_stats: ctx.challenger_stats.refunded(ctx.dare.amount),
        ..ctx
    }
}

/// What a refusal that is not rejected pays out: the whole vault, to the
/// challenger.
pub open spec fn payout(ctx: RefuseDareView) -> PayoutView {
    PayoutView { to: ctx.challenger, lamports: ctx.vault }
}

/// Declines a dare and refunds the escrow to the challenger.
///
/// The receiving account must be the dare's challenger; the dare must be a
/// direct dare in status `Created` that is aimed at someone, and the caller
/// must be that one. The dare becomes `Refused`, the whole vault goes back
/// to the challenger, and the challenger's spent total is lowered by the
/// dare's amount, stopping at zero. A rejected call leaves everything as it
/// was.
pub fn handler(ctx: &mut RefuseDare) -> (r: Result<Payout, DareMeError>)
    ensures
        match r {
            Ok(paid) => {
                &&& rejection(old(ctx)@) is None
                &&& final(ctx)@ == outcome(old(ctx)@)
                &&& paid@ == payout(old(ctx)@)
            },
            Err(e) => {
                &&& rejection(old(ctx)@) == Some(e)
                &&& *final(ctx) == *old(ctx)
            },
        },
{
    if ctx.challenger != ctx.dare.challenger {
        return Err(DareMeError::UnauthorizedChallenger);
    }
    match ctx.dare.dare_type {
        DareType::DirectDare => {},
        DareType::PublicBounty => {
            return Err(DareMeError::InvalidDareType);
        },
    }
    match ctx.dare.status {
        DareStatus::Created => {},
        DareStatus::Active
        | DareStatus::ProofSubmitted
        | DareStatus::Completed
        | DareStatus::Expired
        | DareStatus::Cancelled
        | DareStatus::Rejected
        | DareStatus::Refused => {
            return Err(DareMeError::InvalidDareStatus);
        },
    }
    if !ctx.dare.has_daree {
        return Err(DareMeError::NotTargetedDare);
    }
    if ctx.daree != ctx.dare.daree {
        return Err(DareMeError::UnauthorizedDaree);
    }
    ctx.dare.status = DareStatus::Refused;
    let paid = ctx.vault.release(ctx.challenger);
    ctx.challenger_stats.record_refund(ctx.dare.amount);
    Ok(paid)
}

} // verus!
