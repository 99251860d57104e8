//! The persisted records: a dare and a participant's statistics.
//!
//! Each record has a mathematical view in which byte strings are sequences
//! and numbers are unbounded integers. The rules of the protocol are stated
//! over these views.

use vstd::prelude::*;
use crate::constants::MAX_DEADLINE_DURATION;
use crate::identity::{zero_bytes, Identity};

verus! {

/// Where a dare stands in its lifecycle.
#[derive(Clone, Copy, PartialEq, Eq, Debug, Structural)]
pub enum DareStatus {
    /// Funded, waiting for a daree.
    Created,
    /// Accepted by a daree.
    Active,
    /// A proof awaits the challenger's verdict.
    ProofSubmitted,
    /// The escrow went to the daree.
    Completed,
    /// The deadline passed and the escrow went back to the challenger.
    Expired,
    /// Withdrawn by the challenger before anyone accepted.
    Cancelled,
    /// The last proof was turned down; another may be submitted.
    Rejected,
    /// Declined by the targeted daree.
    Refused,
}

impl DareStatus {
    /// A terminal status is final: the escrow has been paid out and the
    /// record only remains as an audit trail.
    pub open spec fn is_terminal(self) -> bool {
        self == DareStatus::Completed || self == DareStatus::Expired || self
            == DareStatus::Cancelled || self == DareStatus::Refused
    }

    /// The edges of the lifecycle graph.
    pub open spec fn may_become(self, next: DareStatus) -> bool {
        match self {
            DareStatus::Created => next == DareStatus::Active || next == DareStatus::ProofSubmitted
                || next == DareStatus::Cancelled || next == DareStatus::Refused || next
                == DareStatus::Expired,
            DareStatus::Active => next == DareStatus::ProofSubmitted || next == DareStatus::Expired,
            DareStatus::ProofSubmitted => next == DareStatus::Completed || next
                == DareStatus::Rejected,
            DareStatus::Rejected => next == DareStatus::ProofSubmitted || next
                == DareStatus::Expired,
            DareStatus::Completed
            | DareStatus::Expired
            | DareStatus::Cancelled
            | DareStatus::Refused => false,
        }
    }

    /// How far along its life a dare in this status is. Waiting for a proof
    /// again after a rejection is as far along as waiting for the verdict.
    pub open spec fn stage(self) -> nat {
        match self {
            DareStatus::Created => 0,
            DareStatus::Active => 1,
            DareStatus::ProofSubmitted | DareStatus::Rejected => 2,
            DareStatus::Completed
            | DareStatus::Expired
            | DareStatus::Cancelled
            | DareStatus::Refused => 3,
        }
    }

    /// Whether the status is terminal.
    pub fn terminal(&self) -> (t: bool)
        ensures
            t == self.is_terminal(),
    {
        match self {
            DareStatus::Completed
            | DareStatus::Expired
            | DareStatus::Cancelled
            | DareStatus::Refused => true,
            DareStatus::Created
            | DareStatus::Active
            | DareStatus::ProofSubmitted
            | DareStatus::Rejected => false,
        }
    }
}

/// Who may take up a dare.
#[derive(Clone, Copy, PartialEq, Eq, Debug, Structural)]
pub enum DareType {
    /// A one-to-one challenge, optionally aimed at one identity.
    DirectDare,
    /// An open bounty: whoever first submits a valid proof becomes the daree.
    PublicBounty,
}

/// How a winner is chosen. Stored with the dare; no transition reads it.
#[derive(Clone, Copy, PartialEq, Eq, Debug, Structural)]
pub enum WinnerSelection {
    ChallengerSelect,
    CommunityVote,
}

/// One dare: the task's commitment, the escrowed amount and the lifecycle
/// state. There is one record per challenger and dare id.
#[derive(Clone, Copy, PartialEq, Eq, Debug)]
pub struct Dare {
    pub challenger: Identity,
    pub daree: Identity,
    pub has_daree: bool,
    pub dare_id: u64,
    pub description_hash: [u8; 32],
    pub amount: u64,
    pub status: DareStatus,
    pub dare_type: DareType,
    pub winner_selection: WinnerSelection,
    pub proof_hash: [u8; 32],
    pub has_proof: bool,
    pub created_at: i64,
    pub deadline: i64,
    pub accepted_at: i64,
    pub completed_at: i64,
    pub bump: u8,
    pub vault_bump: u8,
}

/// The mathematical view of a [`Dare`].
pub struct DareView {
    pub challenger: Seq<u8>,
    pub daree: Seq<u8>,
    pub has_daree: bool,
    pub dare_id: nat,
    pub description_hash: Seq<u8>,
    pub amount: nat,
    pub status: DareStatus,
    pub dare_type: DareType,
    pub winner_selection: WinnerSelection,
    pub proof_hash: Seq<u8>,
    pub has_proof: bool,
    pub created_at: int,
    pub deadline: int,
    pub accepted_at: int,
    pub completed_at: int,
    pub bump: u8,
    pub vault_bump: u8,
}

impl View for Dare {
    type V = DareView;

    open spec fn view(&self) -> DareView {
        DareView {
            challenger: self.challenger@,
            daree: self.daree@,
            has_daree: self.has_daree,
            dare_id: self.dare_id as nat,
            description_hash: self.description_hash@,
            amount: self.amount as nat,
            status: self.status,
            dare_type: self.dare_type,
            winner_selection: self.winner_selection,
            proof_hash: self.proof_hash@,
            has_proof: self.has_proof,
            created_at: self.created_at as int,
            deadline: self.deadline as int,
            accepted_at: self.accepted_at as int,
            completed_at: self.completed_at as int,
            bump: self.bump,
            vault_bump: self.vault_bump,
        }
    }
}

impl Dare {
    /// The width of a stored record in bytes: an 8-byte tag and the fields.
    pub const SPACE: usize = 8 + 32 + 32 + 1 + 8 + 32 + 8 + 1 + 1 + 1 + 32 + 1 + 8 + 8 + 8 + 8 + 1
        + 1;
}

impl DareView {
    /// A proof is on record exactly while the dare awaits the verdict on it.
    /// In every other status the proof hash is cleared.
    pub open spec fn proof_state_consistent(self) -> bool {
        &&& self.has_proof <==> self.status == DareStatus::ProofSubmitted
        &&& !self.has_proof ==> self.proof_hash == zero_bytes()
    }

    /// The daree is bound exactly when the daree field is not the null
    /// identity, nobody is the daree of a dare of their own, and the statuses
    /// that only a daree's action reaches have one.
    pub open spec fn daree_consistent(self) -> bool {
        &&& self.has_daree <==> self.daree != zero_bytes()
        &&& self.has_daree ==> self.daree != self.challenger
        &&& (self.status == DareStatus::Active || self.status == DareStatus::ProofSubmitted
            || self.status == DareStatus::Rejected || self.status == DareStatus::Completed
            || self.status == DareStatus::Refused) ==> self.has_daree
        &&& self.dare_type == DareType::PublicBounty ==> {
            &&& self.status != DareStatus::Active
            &&& self.status != DareStatus::Refused
            &&& self.status == DareStatus::Created ==> !self.has_daree
        }
    }

    /// The escrowed amount is positive and the deadline lies after creation,
    /// by no more than the longest duration.
    pub open spec fn terms_valid(self) -> bool {
        &&& self.amount > 0
        &&& self.created_at < self.deadline <= self.created_at + MAX_DEADLINE_DURATION
    }

    /// The invariant of a dare record: what creation establishes and every
    /// transition keeps.
    pub open spec fn wf(self) -> bool {
        &&& self.terms_valid()
        &&& self.daree_consistent()
        &&& self.proof_state_consistent()
    }
}

/// A participant's running totals. There is one record per identity; it is
/// claimed by the first transition that touches it.
#[derive(Clone, Copy, PartialEq, Eq, Debug)]
pub struct UserStats {
    pub user: Identity,
    pub dares_created: u32,
    pub dares_accepted: u32,
    pub dares_completed: u32,
    pub dares_failed: u32,
    pub total_earned: u64,
    pub total_spent: u64,
    pub bump: u8,
}

/// The mathematical view of a [`UserStats`].
pub struct UserStatsView {
    pub user: Seq<u8>,
    pub dares_created: nat,
    pub dares_accepted: nat,
    pub dares_completed: nat,
    pub dares_failed: nat,
    pub total_earned: nat,
    pub total_spent: nat,
    pub bump: u8,
}

impl UserStats {
    /// The width of a stored record in bytes: an 8-byte tag and the fields.
    pub const SPACE: usize = 8 + 32 + 4 + 4 + 4 + 4 + 8 + 8 + 1;
}

impl View for UserStats {
    type V = UserStatsView;

    open spec fn view(&self) -> UserStatsView {
        UserStatsView {
            user: self.user@,
            dares_created: self.dares_created as nat,
            dares_accepted: self.dares_accepted as nat,
            dares_completed: self.dares_completed as nat,
            dares_failed: self.dares_failed as nat,
            total_earned: self.total_earned as nat,
            total_spent: self.total_spent as nat,
            bump: self.bump,
        }
    }
}

} // verus!
