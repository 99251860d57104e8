//! Why a call was rejected.

use vstd::prelude::*;

verus! {

/// The reason for which a transition was rejected. A rejected call has no
/// effect at all.
#[derive(Clone, Copy, PartialEq, Eq, Debug, Structural)]
pub enum DareMeError {
    InvalidAmount,
    DeadlinePassed,
    DeadlineTooFar,
    InvalidDareStatus,
    CannotAcceptOwnDare,
    UnauthorizedChallenger,
    UnauthorizedDaree,
    DareExpired,
    DareNotExpired,
    DisputeWindowActive,
    InvalidDareType,
    ArithmeticOverflow,
    MissingDareeStats,
    NotTargetedDare,
}

impl DareMeError {
    /// The text that explains each rejection.
    pub open spec fn message_text(self) -> Seq<char> {
        match self {
            DareMeError::InvalidAmount => "Amount must be greater than zero"@,
            DareMeError::DeadlinePassed => "Deadline must be in the future"@,
            DareMeError::DeadlineTooFar => "Deadline is too far in the future (max 30 days)"@,
            DareMeError::InvalidDareStatus => "Dare is not in the expected status"@,
            DareMeError::CannotAcceptOwnDare => "You cannot accept your own dare"@,
            DareMeError::UnauthorizedChallenger => "Only the challenger can perform this action"@,
            DareMeError::UnauthorizedDaree => "Only the daree can perform this action"@,
            DareMeError::DareExpired => "The dare has expired"@,
            DareMeError::DareNotExpired => "The dare has not expired yet"@,
            DareMeError::DisputeWindowActive => "The dispute window has not passed yet"@,
            DareMeError::InvalidDareType => "This dare type does not support this action"@,
            DareMeError::ArithmeticOverflow => "Arithmetic overflow occurred"@,
            DareMeError::MissingDareeStats => "Daree stats account is required but missing"@,
            DareMeError::NotTargetedDare => "This dare does not have a target daree to refuse"@,
        }
    }

    /// A sentence for the person whose call was rejected.
    pub fn message(&self) -> (text: &'static str)
        ensures
            text@ == self.message_text(),
    {
        match self {
            DareMeError::InvalidAmount => "Amount must be greater than zero",
            DareMeError::DeadlinePassed => "Deadline must be in the future",
            DareMeError::DeadlineTooFar => "Deadline is too far in the future (max 30 days)",
            DareMeError::InvalidDareStatus => "Dare is not in the expected status",
            DareMeError::CannotAcceptOwnDare => "You cannot accept your own dare",
            DareMeError::UnauthorizedChallenger => "Only the challenger can perform this action",
            DareMeError::UnauthorizedDaree => "Only the daree can perform this action",
            DareMeError::DareExpired => "The dare has expired",
            DareMeError::DareNotExpired => "The dare has not expired yet",
            DareMeError::DisputeWindowActive => "The dispute window has not passed yet",
            DareMeError::InvalidDareType => "This dare type does not support this action",
            DareMeError::ArithmeticOverflow => "Arithmetic overflow occurred",
            DareMeError::MissingDareeStats => "Daree stats account is required but missing",
            DareMeError::NotTargetedDare => "This dare does not have a target daree to refuse",
        }
    }
}

} // verus!
