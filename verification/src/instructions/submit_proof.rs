//! Submitting the proof that a dare was carried out.

use vstd::prelude::*;
use crate::error::DareMeError;
use crate::identity::Identity;
use crate::state::{Dare, DareStatus, DareType, DareView, UserStats, UserStatsView};

verus! {

/// What a proof submission acts on.
#[derive(Clone, Copy, PartialEq, Eq, Debug)]
pub struct SubmitProof {
    /// The caller, who hands in the proof.
    pub submitter: Identity,
    pub dare: Dare,
    pub submitter_stats: UserStats,
    /// The derivation marker of the statistics record's key.
    pub submitter_stats_bump: u8,
}

/// The mathematical view of a [`SubmitProof`].
pub struct SubmitProofView {
    pub submitter: Seq<u8>,
    pub dare: DareView,
    pub submitter_stats: UserStatsView,
    pub submitter_stats_bump: u8,
}

impl View for SubmitProof {
    type V = SubmitProofView;

    open spec fn view(&self) -> SubmitProofView {
        SubmitProofView {
            submitter: self.submitter@,
            dare: self.dare@,
            submitter_stats: self.submitter_stats@,
            submitter_stats_bump: self.submitter_stats_bump,
        }
    }
}

/// Why a proof submission at time `now` is rejected, if it is.
pub open spec fn rejection(ctx: SubmitProofView, now: int) -> Option<DareMeError> {
    if ctx.dare.deadline <= now {
        Some(DareMeError::DareExpired)
    } else if ctx.submitter == ctx.dare.challenger {
        Some(DareMeError::CannotAcceptOwnDare)
    } else {
        match ctx.dare.dare_type {
            DareType::DirectDare => {
                if !(ctx.dare.status == DareStatus::Active || ctx.dare.status
                    == DareStatus::Rejected) {
                    Some(DareMeError::InvalidDareStatus)
                } else if !(ctx.dare.has_daree && ctx.submitter == ctx.dare.daree) {
                    Some(DareMeError::UnauthorizedDaree)
                } else {
                    None
                }
            },
            DareType::PublicBounty => {
                if !(ctx.dare.status == DareStatus::Created || ctx.dare.status
                    == DareStatus::Rejected) {
                    Some(DareMeError::InvalidDareStatus)
                } else if !ctx.submitter_stats.accepted_fits() {
                    Some(DareMeError::ArithmeticOverflow)
                } else {
                    None
                }
            },
        }
    }
}

/// The state after a proof submission that is not rejected. The submitter of
/// a public bounty becomes its daree, and the submission counts as an
/// acceptance.
pub open spec fn outcome(ctx: SubmitProofView, proof_hash: Seq<u8>) -> SubmitProofView {
    let claimed = ctx.submitter_stats.claimed_by(ctx.submitter, ctx.submitter_stats_bump);
    match ctx.dare.dare_type {
        DareType::DirectDare => SubmitProofView {
            dare: DareView {
                proof_hash,
                has_proof: true,
                status: DareStatus::ProofSubmitted,
                ..ctx.dare
            },
            submitter_stats: claimed,
            ..ctx
        },
        DareType::PublicBounty => SubmitProofView {
            dare: DareView {
                daree: ctx.submitter,
                has_daree: true,
                proof_hash,
                has_proof: true,
                status: DareStatus::ProofSubmitted,
                ..ctx.dare
            },
            submitter_stats: claimed.accepted(),
            ..ctx
        },
    }
}

/// Records the proof `proof_hash` at time `now`.
///
/// The deadline must not have passed and the caller must not be the
/// challenger. On a direct dare, in status `Active` or `Rejected`, the
/// caller must be the bound daree. On a public bounty, in status `Created`
/// or `Rejected`, the caller becomes the daree. The dare becomes
/// `ProofSubmitted`. A rejected call leaves everything as it was.
pub fn handler(ctx: &mut SubmitProof, proof_hash: [u8; 32], now: i64) -> (r: Result<
    (),
    DareMeError,
>)
    ensures
        match r {
            Ok(()) => {
                &&& rejection(old(ctx)@, now as int) is None
                &&& final(ctx)@ == outcome(old(ctx)@, proof_hash@)
            },
            Err(e) => {
                &&& rejection(old(ctx)@, now as int) == Some(e)
                &&& *final(ctx) == *old(ctx)
            },
        },
{
    if ctx.dare.deadline <= now {
        return Err(DareMeError::DareExpired);
    }
    if ctx.submitter == ctx.dare.challenger {
        return Err(DareMeError::CannotAcceptOwnDare);
    }
    let mut stats = ctx.submitter_stats;
    stats.claim(ctx.submitter, ctx.submitter_stats_bump);
    match ctx.dare.dare_type {
        DareType::DirectDare => {
            match ctx.dare.status {
                DareStatus::Active | DareStatus::Rejected => {},
                DareStatus::Created
                | DareStatus::ProofSubmitted
                | DareStatus::Completed
                | DareStatus::Expired
                | DareStatus::Cancelled
                | DareStatus::Refused => {
                    return Err(DareMeError::InvalidDareStatus);
                },
            }
            if !(ctx.dare.has_daree && ctx.submitter == ctx.dare.daree) {
                return Err(DareMeError::UnauthorizedDaree);
            }
        },
        DareType::PublicBounty => {
            match ctx.dare.status {
                DareStatus::Created | DareStatus::Rejected => {},
                DareStatus::Active
                | DareStatus::ProofSubmitted
                | DareStatus::Completed
                | DareStatus::Expired
                | DareStatus::Cancelled
                | DareStatus::Refused => {
                    return Err(DareMeError::InvalidDareStatus);
                },
            }
            stats.record_accepted()?;
            ctx.dare.daree = ctx.submitter;
            ctx.dare.has_daree = true;
        },
    }
    ctx.dare.proof_hash = proof_hash;
    ctx.dare.has_proof = true;
    ctx.dare.status = DareStatus::ProofSubmitted;
    ctx.submitter_stats = stats;
    Ok(())
}

} // verus!
