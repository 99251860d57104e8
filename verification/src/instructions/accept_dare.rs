//! Accepting a direct dare.

use vstd::prelude::*;
use crate::error::DareMeError;
use crate::identity::Identity;
use crate::state::{Dare, DareStatus, DareType, DareView, UserStats, UserStatsView};

verus! {

/// What an acceptance acts on.
#[derive(Clone, Copy, PartialEq, Eq, Debug)]
pub struct AcceptDare {
    /// The caller, who takes up the dare.
    pub daree: Identity,
    pub dare: Dare,
    pub daree_stats: UserStats,
    /// The derivation marker of the statistics record's key.
    pub daree_stats_bump: u8,
}

/// The mathematical view of an [`AcceptDare`].
pub struct AcceptDareView {
    pub daree: Seq<u8>,
    pub dare: DareView,
    pub daree_stats: UserStatsView,
    pub daree_stats_bump: u8,
}

impl View for AcceptDare {
    type V = AcceptDareView;

    open spec fn view(&self) -> AcceptDareView {
        AcceptDareView {
            daree: self.daree@,
            dare: self.dare@,
            daree_stats: self.daree_stats@,
            daree_stats_bump: self.daree_stats_bump,
        }
    }
}

/// Why an acceptance at time `now` is rejected, if it is.
pub open spec fn rejection(ctx: AcceptDareView, now: int) -> Option<DareMeError> {
    if ctx.dare.dare_type != DareType::DirectDare {
        Some(DareMeError::InvalidDareType)
    } else if ctx.dare.status != DareStatus::Created {
        Some(DareMeError::InvalidDareStatus)
    } else if ctx.daree == ctx.dare.challenger {
        Some(DareMeError::CannotAcceptOwnDare)
    } else if ctx.dare.deadline <= now {
        Some(DareMeError::DareExpired)
    } else if ctx.dare.has_daree && ctx.daree != ctx.dare.daree {
        Some(DareMeError::UnauthorizedDaree)
    } else if !ctx.daree_stats.accepted_fits() {
        Some(DareMeError::ArithmeticOverflow)
    } else {
        None
    }
}

/// The state after an acceptance at time `now` that is not rejected.
pub open spec fn outcome(ctx: AcceptDareView, now: int) -> AcceptDareView {
    AcceptDareView {
        dare: DareView {
            daree: ctx.daree,
            has_daree: true,
            status: DareStatus::Active,
            accepted_at: now,
            ..ctx.dare
        },
        daree_stats: ctx.daree_stats.claimed_by(ctx.daree, ctx.daree_stats_bump).accepted(),
        ..ctx
    }
}

/// Binds the caller to a direct dare at time `now`.
///
/// The dare must be a direct dare in status `Created` whose deadline has not
/// passed; the caller must not be its challenger and, where the dare is
/// aimed at someone, must be that one. The dare becomes `Active` and the
/// caller's statistics count one more accepted dare. A rejected call leaves
/// everything as it was.
pub fn handler(ctx: &mut AcceptDare, now: i64) -> (r: Result<(), DareMeError>)
    ensures
        match r {
            Ok(()) => {
                &&& rejection(old(ctx)@, now as int) is None
                &&& final(ctx)@ == outcome(old(ctx)@, now as int)
            },
            Err(e) => {
                &&& rejection(old(ctx)@, now as int) == Some(e)
                &&& *final(ctx) == *old(ctx)
            },
        },
{
    match ctx.dare.dare_type {
        DareType::DirectDare => {},
        DareType::PublicBounty => {
            return Err(DareMeError::InvalidDareType);
        },
    }
    match ctx.dare.status {
        DareStatus::Created => {},
        DareStatus::Active
        | DareStatus::ProofSubmitted
        | DareStatus::Completed
        | DareStatus::Expired
        | DareStatus::Cancelled
        | DareStatus::Rejected
        | DareStatus::Refused => {
            return Err(DareMeError::InvalidDareStatus);
        },
    }
    if ctx.daree == ctx.dare.challenger {
        return Err(DareMeError::CannotAcceptOwnDare);
    }
    if ctx.dare.deadline <= now {
        return Err(DareMeError::DareExpired);
    }
    if ctx.dare.has_daree && ctx.daree != ctx.dare.daree {
        return Err(DareMeError::UnauthorizedDaree);
    }
    let mut stats = ctx.daree_stats;
    stats.claim(ctx.daree, ctx.daree_stats_bump);
    stats.record_accepted()?;

    ctx.dare.daree = ctx.daree;
    ctx.dare.has_daree = true;
    ctx.dare.status = DareStatus::Active;
    ctx.dare.accepted_at = now;
    ctx.daree_stats = stats;
    Ok(())
}

} // verus!
