//! The challenger's rejection of a submitted proof.

use vstd::prelude::*;
use crate::error::DareMeError;
use crate::identity::{zero_bytes, zero_hash, Identity};
use crate::state::{Dare, DareStatus, DareView};

verus! {

/// What a rejection of a proof acts on.
#[derive(Clone, Copy, PartialEq, Eq, Debug)]
pub struct RejectDare {
    /// The caller.
    pub challenger: Identity,
    pub dare: Dare,
}

/// The mathematical view of a [`RejectDare`].
pub struct RejectDareView {
    pub challenger: Seq<u8>,
    pub dare: DareView,
}

impl View for RejectDare {
    type V = RejectDareView;

    open spec fn view(&self) -> RejectDareView {
        RejectDareView { challenger: self.challenger@, dare: self.dare@ }
    }
}

/// Why the call is rejected, if it is.
pub open spec fn rejection(ctx: RejectDareView) -> Option<DareMeError> {
    if ctx.challenger != ctx.dare.challenger {
        Some(DareMeError::UnauthorizedChallenger)
    } else if ctx.dare.status != DareStatus::ProofSubmitted {
        Some(DareMeError::InvalidDareStatus)
    } else {
        None
    }
}

/// The state after the proof was turned down: the dare is `Rejected` and
/// holds no proof.
pub open spec fn outcome(ctx: RejectDareView) -> RejectDareView {
    RejectDareView {
        dare: DareView {
            status: DareStatus::Rejected,
            proof_hash: zero_bytes(),
            has_proof: false,
            ..ctx.dare
        },
        ..ctx
    }
}

/// Turns the submitted proof down, so that another can be submitted.
///
/// The caller must be the dare's challenger and the dare must be in status
/// `ProofSubmitted`. The dare becomes `Rejected` and its proof is cleared;
/// the escrow stays where it is. A rejected call leaves everything as it
/// was.
pub fn handler(ctx: &mut RejectDare) -> (r: Result<(), DareMeError>)
    ensures
        match r {
            Ok(()) => {
                &&& rejection(old(ctx)@) is None
                &&& final(ctx)@ == outcome(old(ctx)@)
            },
            Err(e) => {
                &&& rejection(old(ctx)@) == Some(e)
                &&& *final(ctx) == *old(ctx)
            },
        },
{
    if ctx.challenger != ctx.dare.challenger {
        return Err(DareMeError::UnauthorizedChallenger);
    }
    match ctx.dare.status {
        DareStatus::ProofSubmitted => {},
        DareStatus::Created
        | DareStatus::Active
        | DareStatus::Completed
        | DareStatus::Expired
        | DareStatus::Cancelled
        | DareStatus::Rejected
        | DareStatus::Refused => {
            return Err(DareMeError::InvalidDareStatus);
        },
    }
    ctx.dare.status = DareStatus::Rejected;
    ctx.dare.proof_hash = zero_hash();
    ctx.dare.has_proof = false;
    Ok(())
}

} // verus!
