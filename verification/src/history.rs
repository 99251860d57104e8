//! What holds over the whole life of a dare and of a statistics record.
//!
//! A history is the sequence of states that a record goes through, one call
//! after another. From one state to the next either nothing changes, because
//! the call was rejected or did not concern the record, or the record is
//! left as the outcome of a transition. The theorems here carry the laws of
//! single transitions over to histories of any length.

use vstd::prelude::*;
use crate::identity::zero_bytes;
use crate::instructions::accept_dare::AcceptDareView;
use crate::instructions::approve_dare::ApproveDareView;
use crate::instructions::cancel_dare::CancelDareView;
use crate::instructions::create_dare::CreateDareView;
use crate::instructions::expire_dare::ExpireDareView;
use crate::instructions::refuse_dare::RefuseDareView;
use crate::instructions::reject_dare::RejectDareView;
use crate::instructions::submit_proof::SubmitProofView;
use crate::instructions::{
    accept_dare,
    approve_dare,
    cancel_dare,
    create_dare,
    expire_dare,
    refuse_dare,
    reject_dare,
    submit_proof,
};
use crate::laws::escrow_intact;
use crate::state::{DareStatus, DareType, DareView, UserStatsView, WinnerSelection};

verus! {

/// A dare with its vault and the sum of what the vault has paid out so far.
pub struct Escrow {
    pub dare: DareView,
    pub vault: nat,
    pub paid_out: nat,
}

impl Escrow {
    /// The funds are where they belong. While the dare is live, the vault
    /// holds the locked amount, on top of the dust that it held before the
    /// dare, and nothing has been paid out. Once the dare is in a terminal
    /// status, the vault is empty and exactly those funds have been paid
    /// out.
    pub open spec fn intact(self, dust: nat) -> bool {
        &&& escrow_intact(self.dare, self.vault, dust)
        &&& self.paid_out == if self.dare.status.is_terminal() {
            self.dare.amount + dust
        } else {
            0
        }
    }
}

/// The life of a dare begins with its funds where they belong: creation
/// leaves the amount in the vault, on top of the dust that was there, and
/// the dare live.
pub proof fn creation_begins_with_the_escrow_intact(
    ctx: CreateDareView,
    dare_id: nat,
    description_hash: Seq<u8>,
    amount: nat,
    deadline: int,
    dare_type: DareType,
    winner_selection: WinnerSelection,
    target_daree: Seq<u8>,
    now: int,
)
    requires
        create_dare::rejection(ctx, amount, deadline, target_daree, now) is None,
    ensures
        (Escrow {
            dare: create_dare::created(
                ctx,
                dare_id,
                description_hash,
                amount,
                deadline,
                dare_type,
                winner_selection,
                target_daree,
                now,
            ),
            vault: create_dare::outcome(ctx, amount).vault,
            paid_out: 0,
        }).intact(ctx.vault),
{
}

/// An acceptance that is not rejected leads from `before` to `after`.
pub open spec fn accepted(before: Escrow, after: Escrow, ctx: AcceptDareView, now: int) -> bool {
    &&& ctx.dare == before.dare
    &&& accept_dare::rejection(ctx, now) is None
    &&& after == Escrow { dare: accept_dare::outcome(ctx, now).dare, ..before }
}

/// A proof submission that is not rejected leads from `before` to `after`.
pub open spec fn submitted(
    before: Escrow,
    after: Escrow,
    ctx: SubmitProofView,
    proof_hash: Seq<u8>,
    now: int,
) -> bool {
    &&& ctx.dare == before.dare
    &&& submit_proof::rejection(ctx, now) is None
    &&& after == Escrow { dare: submit_proof::outcome(ctx, proof_hash).dare, ..before }
}

/// A rejection of the proof, itself not rejected, leads from `before` to
/// `after`.
pub open spec fn turned_down(before: Escrow, after: Escrow, ctx: RejectDareView) -> bool {
    &&& ctx.dare == before.dare
    &&& reject_dare::rejection(ctx) is None
    &&& after == Escrow { dare: reject_dare::outcome(ctx).dare, ..before }
}

/// An approval that is not rejected leads from `before` to `after`.
pub open spec fn approved(before: Escrow, after: Escrow, ctx: ApproveDareView, now: int) -> bool {
    &&& ctx.dare == before.dare
    &&& ctx.vault == before.vault
    &&& approve_dare::rejection(ctx) is None
    &&& after == Escrow {
        dare: approve_dare::outcome(ctx, now).dare,
        vault: approve_dare::outcome(ctx, now).vault,
        paid_out: before.paid_out + approve_dare::payout(ctx).lamports,
    }
}

/// A cancellation that is not rejected leads from `before` to `after`.
pub open spec fn cancelled(before: Escrow, after: Escrow, ctx: CancelDareView) -> bool {
    &&& ctx.dare == before.dare
    &&& ctx.vault == before.vault
    &&& cancel_dare::rejection(ctx) is None
    &&& after == Escrow {
        dare: cancel_dare::outcome(ctx).dare,
        vault: cancel_dare::outcome(ctx).vault,
        paid_out: before.paid_out + cancel_dare::payout(ctx).lamports,
    }
}

/// An expiry that is not rejected leads from `before` to `after`.
pub open spec fn expired(before: Escrow, after: Escrow, ctx: ExpireDareView, now: int) -> bool {
    &&& ctx.dare == before.dare
    &&& ctx.vault == before.vault
    &&& expire_dare::rejection(ctx, now) is None
    &&& after == Escrow {
        dare: expire_dare::outcome(ctx, now).dare,
        vault: expire_dare::outcome(ctx, now).vault,
        paid_out: before.paid_out + expire_dare::payout(ctx).lamports,
    }
}

/// A refusal that is not rejected leads from `before` to `after`.
pub open spec fn refused(before: Escrow, after: Escrow, ctx: RefuseDareView) -> bool {
    &&& ctx.dare == before.dare
    &&& ctx.vault == before.vault
    &&& refuse_dare::rejection(ctx) is None
    &&& after == Escrow {
        dare: refuse_dare::outcome(ctx).dare,
        vault: refuse_dare::outcome(ctx).vault,
        paid_out: before.paid_out + refuse_dare::payout(ctx).lamports,
    }
}

/// One call leads from `before` to `after`: it was rejected and changed
/// nothing, or it was one of the seven transitions on an existing dare.
pub open spec fn steps_to(before: Escrow, after: Escrow) -> bool {
    ||| after == before
    ||| exists|ctx: AcceptDareView, now: int| accepted(before, after, ctx, now)
    ||| exists|ctx: SubmitProofView, proof_hash: Seq<u8>, now: int|
        submitted(before, after, ctx, proof_hash, now)
    ||| exists|ctx: RejectDareView| turned_down(before, after, ctx)
    ||| exists|ctx: ApproveDareView, now: int| approved(before, after, ctx, now)
    ||| exists|ctx: CancelDareView| cancelled(before, after, ctx)
    ||| exists|ctx: ExpireDareView, now: int| expired(before, after, ctx, now)
    ||| exists|ctx: RefuseDareView| refused(before, after, ctx)
}

/// The states of one dare, call after call.
pub open spec fn is_history(h: Seq<Escrow>) -> bool {
    forall|i: int| #![trigger h[i]] 0 < i < h.len() ==> steps_to(h[i - 1], h[i])
}

/// One call keeps the funds where they belong and the amount as it is.
pub proof fn step_keeps_the_escrow_intact(before: Escrow, after: Escrow, dust: nat)
    requires
        steps_to(before, after),
        before.intact(dust),
    ensures
        after.intact(dust),
        after.dare.amount == before.dare.amount,
{
}

/// One call on a dare in a terminal status changes nothing.
pub proof fn step_from_a_terminal_status_changes_nothing(before: Escrow, after: Escrow)
    requires
        steps_to(before, after),
        before.dare.status.is_terminal(),
    ensures
        after == before,
{
}

/// One call leaves the status as it is or moves it along an edge of the
/// lifecycle graph, and keeps the proof state consistent.
pub proof fn step_follows_the_lifecycle(before: Escrow, after: Escrow)
    requires
        steps_to(before, after),
    ensures
        after.dare.status == before.dare.status || before.dare.status.may_become(
            after.dare.status,
        ),
        before.dare.proof_state_consistent() ==> after.dare.proof_state_consistent(),
{
}

/// Escrow conservation, over the life of a dare. If the vault holds the
/// locked amount when the history begins, then at every later point the
/// funds are where they belong: in the vault, untouched, while the dare is
/// live; paid out in full and exactly once, with the vault at zero, from the
/// moment the dare reaches a terminal status.
pub proof fn escrow_is_conserved_over_a_history(h: Seq<Escrow>, dust: nat, j: int)
    requires
        is_history(h),
        0 <= j < h.len(),
        h[0].intact(dust),
    ensures
        h[j].intact(dust),
        h[j].dare.amount == h[0].dare.amount,
    decreases j,
{
    if j > 0 {
        escrow_is_conserved_over_a_history(h, dust, j - 1);
        assert(steps_to(h[j - 1], h[j]));
        step_keeps_the_escrow_intact(h[j - 1], h[j], dust);
    }
}

/// No double disbursement, over the life of a dare. Once a dare has reached
/// a terminal status, no sequence of calls changes the dare, empties the
/// vault again or pays anything more.
pub proof fn nothing_moves_after_a_terminal_status(h: Seq<Escrow>, i: int, j: int)
    requires
        is_history(h),
        0 <= i <= j < h.len(),
        h[i].dare.status.is_terminal(),
    ensures
        h[j] == h[i],
    decreases j - i,
{
    if i < j {
        nothing_moves_after_a_terminal_status(h, i, j - 1);
        assert(steps_to(h[j - 1], h[j]));
        step_from_a_terminal_status_changes_nothing(h[j - 1], h[j]);
    }
}

/// Proof state, over the life of a dare. If the proof state is consistent
/// when the history begins, as it is after creation, it is consistent at
/// every later point: the dare has a proof exactly while its status is
/// `ProofSubmitted`, and without a proof its proof hash is cleared.
pub proof fn proof_state_is_consistent_over_a_history(h: Seq<Escrow>, j: int)
    requires
        is_history(h),
        0 <= j < h.len(),
        h[0].dare.proof_state_consistent(),
    ensures
        h[j].dare.proof_state_consistent(),
        h[j].dare.has_proof <==> h[j].dare.status == DareStatus::ProofSubmitted,
        !h[j].dare.has_proof ==> h[j].dare.proof_hash == zero_bytes(),
    decreases j,
{
    if j > 0 {
        proof_state_is_consistent_over_a_history(h, j - 1);
        assert(steps_to(h[j - 1], h[j]));
        step_follows_the_lifecycle(h[j - 1], h[j]);
    }
}

/// One call leads from the statistics record `before` to `after`: it left the
/// record alone, as every rejected call does, or `after` is what a transition
/// leaves of the record that it had in one of its roles.
pub open spec fn stats_step_to(before: UserStatsView, after: UserStatsView) -> bool {
    ||| after == before
    ||| exists|ctx: CreateDareView, amount: nat|
        ctx.challenger_stats == before && #[trigger] create_dare::outcome(
            ctx,
            amount,
        ).challenger_stats == after
    ||| exists|ctx: AcceptDareView, now: int|
        ctx.daree_stats == before && #[trigger] accept_dare::outcome(ctx, now).daree_stats
            == after
    ||| exists|ctx: SubmitProofView, proof_hash: Seq<u8>|
        ctx.submitter_stats == before && #[trigger] submit_proof::outcome(
            ctx,
            proof_hash,
        ).submitter_stats == after
    ||| exists|ctx: ApproveDareView, now: int|
        ctx.daree_stats == before && #[trigger] approve_dare::outcome(ctx, now).daree_stats
            == after
    ||| exists|ctx: CancelDareView|
        ctx.challenger_stats == before && #[trigger] cancel_dare::outcome(ctx).challenger_stats
            == after
    ||| exists|ctx: ExpireDareView, now: int|
        ctx.challenger_stats == before && #[trigger] expire_dare::outcome(
            ctx,
            now,
        ).challenger_stats == after
    ||| exists|ctx: ExpireDareView, now: int|
        ctx.daree_stats == Some(before) && #[trigger] expire_dare::outcome(ctx, now).daree_stats
            == Some(after)
    ||| exists|ctx: RefuseDareView|
        ctx.challenger_stats == before && #[trigger] refuse_dare::outcome(ctx).challenger_stats
            == after
}

/// The states of one statistics record, call after call.
pub open spec fn is_stats_history(h: Seq<UserStatsView>) -> bool {
    forall|i: int| #![trigger h[i]] 0 < i < h.len() ==> stats_step_to(h[i - 1], h[i])
}

/// One call lowers no counter.
pub proof fn step_lowers_no_counter(before: UserStatsView, after: UserStatsView)
    requires
        stats_step_to(before, after),
    ensures
        after.no_counter_below(before),
{
}

/// Monotonic counters, over the history of an identity's record. At no
/// point is any of the counters of created, accepted, completed and failed
/// dares, or the earned total, lower than at an earlier point.
pub proof fn counters_never_decrease_over_a_history(h: Seq<UserStatsView>, i: int, j: int)
    requires
        is_stats_history(h),
        0 <= i <= j < h.len(),
    ensures
        h[j].no_counter_below(h[i]),
    decreases j - i,
{
    if i < j {
        counters_never_decrease_over_a_history(h, i, j - 1);
        assert(stats_step_to(h[j - 1], h[j]));
        step_lowers_no_counter(h[j - 1], h[j]);
    }
}

} // verus!
