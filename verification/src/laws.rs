//! What holds of every dare, whatever is called on it and in whatever order.
//!
//! Each law is stated over the rejection and outcome of the transitions, as
//! their contracts use them: a call is rejected exactly when its `rejection`
//! is `Some`, and then changes nothing; otherwise it leaves its `outcome`.
//! Since a record is determined by its view, a contract over views fixes the
//! record itself.

use vstd::prelude::*;
use crate::identity::{zero_bytes, Identity};
use crate::instructions::accept_dare::AcceptDareView;
use crate::instructions::approve_dare::ApproveDareView;
use crate::instructions::cancel_dare::CancelDareView;
use crate::instructions::create_dare::CreateDareView;
use crate::instructions::expire_dare::ExpireDareView;
use crate::instructions::refuse_dare::RefuseDareView;
use crate::instructions::reject_dare::RejectDareView;
use crate::instructions::submit_proof::SubmitProofView;
use crate::instructions::{
    accept_dare,
    approve_dare,
    cancel_dare,
    create_dare,
    expire_dare,
    refuse_dare,
    reject_dare,
    submit_proof,
};
use crate::state::{
    Dare,
    DareStatus,
    DareType,
    DareView,
    UserStats,
    UserStatsView,
    WinnerSelection,
};

verus! {

/// Two identities with the same bytes are the same identity.
pub proof fn identity_view_injective(a: Identity, b: Identity)
    requires
        a@ == b@,
    ensures
        a == b,
{
    assert(a.bytes =~= b.bytes);
}

/// A dare record is determined by its view.
pub proof fn dare_view_injective(a: Dare, b: Dare)
    requires
        a@ == b@,
    ensures
        a == b,
{
    assert(a.challenger.bytes =~= b.challenger.bytes);
    assert(a.daree.bytes =~= b.daree.bytes);
    assert(a.description_hash =~= b.description_hash);
    assert(a.proof_hash =~= b.proof_hash);
}

/// A statistics record is determined by its view.
pub proof fn user_stats_view_injective(a: UserStats, b: UserStats)
    requires
        a@ == b@,
    ensures
        a == b,
{
    assert(a.user.bytes =~= b.user.bytes);
}

/// The vault of a dare holds its escrow: while the dare is live, the locked
/// amount on top of whatever dust the vault held before the dare; once the
/// dare is in a terminal status, nothing.
pub open spec fn escrow_intact(dare: DareView, vault: nat, dust: nat) -> bool {
    if dare.status.is_terminal() {
        vault == 0
    } else {
        vault == dare.amount + dust
    }
}

/// The terms of a dare that no transition touches.
pub open spec fn same_terms(before: DareView, after: DareView) -> bool {
    &&& after.challenger == before.challenger
    &&& after.dare_id == before.dare_id
    &&& after.description_hash == before.description_hash
    &&& after.amount == before.amount
    &&& after.dare_type == before.dare_type
    &&& after.winner_selection == before.winner_selection
    &&& after.created_at == before.created_at
    &&& after.deadline == before.deadline
    &&& after.bump == before.bump
    &&& after.vault_bump == before.vault_bump
}

/// Whether no counter of `after` is below its value in `before`, for a
/// statistics record that may be absent.
pub open spec fn no_counter_below(
    after: Option<UserStatsView>,
    before: Option<UserStatsView>,
) -> bool {
    match (after, before) {
        (Some(a), Some(b)) => a.no_counter_below(b),
        (None, None) => true,
        _ => false,
    }
}

/// Creation locks exactly the dare's amount: afterwards the vault holds the
/// amount on top of what it held before, and the challenger is asked for
/// exactly that amount.
pub proof fn creation_locks_the_amount(
    ctx: CreateDareView,
    dare_id: nat,
    description_hash: Seq<u8>,
    amount: nat,
    deadline: int,
    dare_type: DareType,
    winner_selection: WinnerSelection,
    target_daree: Seq<u8>,
    now: int,
)
    requires
        create_dare::rejection(ctx, amount, deadline, target_daree, now) is None,
    ensures
        escrow_intact(
            create_dare::created(
                ctx,
                dare_id,
                description_hash,
                amount,
                deadline,
                dare_type,
                winner_selection,
                target_daree,
                now,
            ),
            create_dare::outcome(ctx, amount).vault,
            ctx.vault,
        ),
        create_dare::deposit(ctx, amount).lamports == amount,
        create_dare::deposit(ctx, amount).from == ctx.challenger,
{
}

/// Escrow conservation. A vault that holds its dare's escrow is emptied by
/// the transition that ends the dare, and by no other. What that transition
/// pays out is the amount locked at creation, on top of the dust that the
/// vault held before it.
pub proof fn escrow_is_conserved(
    approve: ApproveDareView,
    cancel: CancelDareView,
    expire: ExpireDareView,
    refuse: RefuseDareView,
    dust: nat,
    now: int,
)
    requires
        escrow_intact(approve.dare, approve.vault, dust),
        escrow_intact(cancel.dare, cancel.vault, dust),
        escrow_intact(expire.dare, expire.vault, dust),
        escrow_intact(refuse.dare, refuse.vault, dust),
    ensures
        approve_dare::rejection(approve) is None ==> {
            &&& approve_dare::outcome(approve, now).vault == 0
            &&& approve_dare::outcome(approve, now).dare.status.is_terminal()
            &&& approve_dare::payout(approve).lamports == approve.dare.amount + dust
        },
        cancel_dare::rejection(cancel) is None ==> {
            &&& cancel_dare::outcome(cancel).vault == 0
            &&& cancel_dare::outcome(cancel).dare.status.is_terminal()
            &&& cancel_dare::payout(cancel).lamports == cancel.dare.amount + dust
        },
        expire_dare::rejection(expire, now) is None ==> {
            &&& expire_dare::outcome(expire, now).vault == 0
            &&& expire_dare::outcome(expire, now).dare.status.is_terminal()
            &&& expire_dare::payout(expire).lamports == expire.dare.amount + dust
        },
        refuse_dare::rejection(refuse) is None ==> {
            &&& refuse_dare::outcome(refuse).vault == 0
            &&& refuse_dare::outcome(refuse).dare.status.is_terminal()
            &&& refuse_dare::payout(refuse).lamports == refuse.dare.amount + dust
        },
{
}

/// The transitions that do not end a dare leave its escrow alone: they have
/// no access to the vault, keep the amount, and leave the dare live.
pub proof fn live_transitions_keep_the_escrow(
    accept: AcceptDareView,
    submit: SubmitProofView,
    reject: RejectDareView,
    proof_hash: Seq<u8>,
    vault: nat,
    dust: nat,
    now: int,
)
    requires
        escrow_intact(accept.dare, vault, dust),
        escrow_intact(submit.dare, vault, dust),
        escrow_intact(reject.dare, vault, dust),
    ensures
        accept_dare::rejection(accept, now) is None ==> escrow_intact(
            accept_dare::outcome(accept, now).dare,
            vault,
            dust,
        ),
        submit_proof::rejection(submit, now) is None ==> escrow_intact(
            submit_proof::outcome(submit, proof_hash).dare,
            vault,
            dust,
        ),
        reject_dare::rejection(reject) is None ==> escrow_intact(
            reject_dare::outcome(reject).dare,
            vault,
            dust,
        ),
{
}

/// Who is paid follows from the dare alone, never from who calls: a refund
/// goes to the challenger, a release to the bound daree.
pub proof fn payout_goes_to_the_party_the_dare_names(
    approve: ApproveDareView,
    cancel: CancelDareView,
    expire: ExpireDareView,
    refuse: RefuseDareView,
    now: int,
)
    ensures
        approve_dare::rejection(approve) is None ==> approve.dare.has_daree
            && approve_dare::payout(approve).to == approve.dare.daree,
        cancel_dare::rejection(cancel) is None ==> cancel_dare::payout(cancel).to
            == cancel.dare.challenger,
        expire_dare::rejection(expire, now) is None && expire_dare::refunds(expire.dare.status)
            ==> expire_dare::payout(expire).to == expire.dare.challenger,
        expire_dare::rejection(expire, now) is None && !expire_dare::refunds(expire.dare.status)
            ==> expire.dare.has_daree && expire_dare::payout(expire).to == expire.dare.daree,
        refuse_dare::rejection(refuse) is None ==> refuse_dare::payout(refuse).to
            == refuse.dare.challenger,
{
}

/// The crank is permissionless: whoever turns it, the same calls are
/// rejected for the same reason, and the others lead to the same dare, vault
/// and statistics and pay the same recipient the same amount.
pub proof fn expiry_does_not_depend_on_the_caller(
    expire: ExpireDareView,
    someone_else: Seq<u8>,
    now: int,
)
    ensures
        ({
            let other = ExpireDareView { payer: someone_else, ..expire };
            &&& expire_dare::rejection(other, now) == expire_dare::rejection(expire, now)
            &&& expire_dare::payout(other) == expire_dare::payout(expire)
            &&& expire_dare::outcome(other, now) == (ExpireDareView {
                payer: someone_else,
                ..expire_dare::outcome(expire, now)
            })
        }),
{
}

/// No double disbursement. Every transition on a dare in a terminal status
/// is rejected, and a rejected call changes neither the dare nor its vault.
pub proof fn terminal_dare_rejects_every_transition(
    accept: AcceptDareView,
    submit: SubmitProofView,
    approve: ApproveDareView,
    reject: RejectDareView,
    cancel: CancelDareView,
    expire: ExpireDareView,
    refuse: RefuseDareView,
    now: int,
)
    ensures
        accept.dare.status.is_terminal() ==> accept_dare::rejection(accept, now) is Some,
        submit.dare.status.is_terminal() ==> submit_proof::rejection(submit, now) is Some,
        approve.dare.status.is_terminal() ==> approve_dare::rejection(approve) is Some,
        reject.dare.status.is_terminal() ==> reject_dare::rejection(reject) is Some,
        cancel.dare.status.is_terminal() ==> cancel_dare::rejection(cancel) is Some,
        expire.dare.status.is_terminal() ==> expire_dare::rejection(expire, now) is Some,
        refuse.dare.status.is_terminal() ==> refuse_dare::rejection(refuse) is Some,
{
}

/// A transition that paid the escrow out cannot be repeated: on its own
/// outcome it is rejected.
pub proof fn disbursement_is_not_repeated(
    approve: ApproveDareView,
    cancel: CancelDareView,
    expire: ExpireDareView,
    refuse: RefuseDareView,
    now: int,
    later: int,
)
    ensures
        approve_dare::rejection(approve) is None ==> approve_dare::rejection(
            approve_dare::outcome(approve, now),
        ) is Some,
        cancel_dare::rejection(cancel) is None ==> cancel_dare::rejection(
            cancel_dare::outcome(cancel),
        ) is Some,
        expire_dare::rejection(expire, now) is None ==> expire_dare::rejection(
            expire_dare::outcome(expire, now),
            later,
        ) is Some,
        refuse_dare::rejection(refuse) is None ==> refuse_dare::rejection(
            refuse_dare::outcome(refuse),
        ) is Some,
{
}

/// The lifecycle only moves forward. A dare starts out `Created`, and every
/// transition that is not rejected follows an edge of the lifecycle graph.
pub proof fn status_follows_the_lifecycle(
    create: CreateDareView,
    dare_id: nat,
    description_hash: Seq<u8>,
    amount: nat,
    deadline: int,
    dare_type: DareType,
    winner_selection: WinnerSelection,
    target_daree: Seq<u8>,
    accept: AcceptDareView,
    submit: SubmitProofView,
    proof_hash: Seq<u8>,
    approve: ApproveDareView,
    reject: RejectDareView,
    cancel: CancelDareView,
    expire: ExpireDareView,
    refuse: RefuseDareView,
    now: int,
)
    ensures
        create_dare::created(
            create,
            dare_id,
            description_hash,
            amount,
            deadline,
            dare_type,
            winner_selection,
            target_daree,
            now,
        ).status == DareStatus::Created,
        accept_dare::rejection(accept, now) is None ==> accept.dare.status.may_become(
            accept_dare::outcome(accept, now).dare.status,
        ),
        submit_proof::rejection(submit, now) is None ==> submit.dare.status.may_become(
            submit_proof::outcome(submit, proof_hash).dare.status,
        ),
        approve_dare::rejection(approve) is None ==> approve.dare.status.may_become(
            approve_dare::outcome(approve, now).dare.status,
        ),
        reject_dare::rejection(reject) is None ==> reject.dare.status.may_become(
            reject_dare::outcome(reject).dare.status,
        ),
        cancel_dare::rejection(cancel) is None ==> cancel.dare.status.may_become(
            cancel_dare::outcome(cancel).dare.status,
        ),
        expire_dare::rejection(expire, now) is None ==> expire.dare.status.may_become(
            expire_dare::outcome(expire, now).dare.status,
        ),
        refuse_dare::rejection(refuse) is None ==> refuse.dare.status.may_become(
            refuse_dare::outcome(refuse).dare.status,
        ),
{
}

/// The lifecycle graph has one loop and no other way back: every edge leads
/// to a later stage, except those between `ProofSubmitted` and `Rejected`,
/// which stay at the same stage. A terminal status has no edge out.
pub proof fn lifecycle_loops_only_through_resubmission(from: DareStatus, to: DareStatus)
    requires
        from.may_become(to),
    ensures
        !from.is_terminal(),
        from.stage() < to.stage() || (from == DareStatus::ProofSubmitted && to
            == DareStatus::Rejected) || (from == DareStatus::Rejected && to
            == DareStatus::ProofSubmitted),
{
}

/// No transition changes the terms of a dare: who challenged, what for, how
/// much, of which kind and until when.
pub proof fn terms_are_never_changed(
    accept: AcceptDareView,
    submit: SubmitProofView,
    proof_hash: Seq<u8>,
    approve: ApproveDareView,
    reject: RejectDareView,
    cancel: CancelDareView,
    expire: ExpireDareView,
    refuse: RefuseDareView,
    now: int,
)
    ensures
        same_terms(accept.dare, accept_dare::outcome(accept, now).dare),
        same_terms(submit.dare, submit_proof::outcome(submit, proof_hash).dare),
        same_terms(approve.dare, approve_dare::outcome(approve, now).dare),
        same_terms(reject.dare, reject_dare::outcome(reject).dare),
        same_terms(cancel.dare, cancel_dare::outcome(cancel).dare),
        same_terms(expire.dare, expire_dare::outcome(expire, now).dare),
        same_terms(refuse.dare, refuse_dare::outcome(refuse).dare),
{
}

/// Monotonic counters. Across every transition, none of the counters of
/// created, accepted, completed and failed dares, nor the earned total, of
/// any statistics record goes down. Only the spent total can.
pub proof fn counters_never_decrease(
    create: CreateDareView,
    amount: nat,
    accept: AcceptDareView,
    submit: SubmitProofView,
    proof_hash: Seq<u8>,
    approve: ApproveDareView,
    cancel: CancelDareView,
    expire: ExpireDareView,
    refuse: RefuseDareView,
    now: int,
)
    ensures
        create_dare::outcome(create, amount).challenger_stats.no_counter_below(
            create.challenger_stats,
        ),
        accept_dare::outcome(accept, now).daree_stats.no_counter_below(accept.daree_stats),
        submit_proof::outcome(submit, proof_hash).submitter_stats.no_counter_below(
            submit.submitter_stats,
        ),
        approve_dare::outcome(approve, now).daree_stats.no_counter_below(approve.daree_stats),
        cancel_dare::outcome(cancel).challenger_stats.no_counter_below(cancel.challenger_stats),
        expire_dare::outcome(expire, now).challenger_stats.no_counter_below(
            expire.challenger_stats,
        ),
        no_counter_below(expire_dare::outcome(expire, now).daree_stats, expire.daree_stats),
        refuse_dare::outcome(refuse).challenger_stats.no_counter_below(refuse.challenger_stats),
{
}

/// Over a history of transitions the counters never decrease either: not
/// being below is reflexive and transitive.
pub proof fn no_counter_below_is_a_preorder(a: UserStatsView, b: UserStatsView, c: UserStatsView)
    ensures
        a.no_counter_below(a),
        c.no_counter_below(b) && b.no_counter_below(a) ==> c.no_counter_below(a),
{
}

/// Proof state. A dare whose proof state is consistent has a proof exactly
/// when its status is `ProofSubmitted`; in every other status the flag is
/// down and the proof hash is cleared.
pub proof fn proof_is_present_only_while_submitted(dare: DareView)
    requires
        dare.proof_state_consistent(),
    ensures
        dare.has_proof ==> dare.status == DareStatus::ProofSubmitted,
        dare.status == DareStatus::ProofSubmitted ==> dare.has_proof,
        dare.status != DareStatus::ProofSubmitted ==> !dare.has_proof && dare.proof_hash
            == zero_bytes(),
{
}

/// The verdict clears the proof, whichever way it goes: after an approval,
/// after the release that stands in for one, and after a rejection, the dare
/// has no proof and its proof hash is cleared.
pub proof fn verdict_clears_the_proof(
    approve: ApproveDareView,
    reject: RejectDareView,
    expire: ExpireDareView,
    now: int,
)
    ensures
        !approve_dare::outcome(approve, now).dare.has_proof,
        approve_dare::outcome(approve, now).dare.proof_hash == zero_bytes(),
        !reject_dare::outcome(reject).dare.has_proof,
        reject_dare::outcome(reject).dare.proof_hash == zero_bytes(),
        expire_dare::rejection(expire, now) is None && expire.dare.status
            == DareStatus::ProofSubmitted ==> {
            &&& expire_dare::outcome(expire, now).dare.status == DareStatus::Completed
            &&& !expire_dare::outcome(expire, now).dare.has_proof
            &&& expire_dare::outcome(expire, now).dare.proof_hash == zero_bytes()
        },
{
}

/// The proof state of a dare is consistent from creation on: creation
/// establishes it and every transition that is not rejected keeps it.
pub proof fn proof_state_stays_consistent(
    create: CreateDareView,
    dare_id: nat,
    description_hash: Seq<u8>,
    amount: nat,
    deadline: int,
    dare_type: DareType,
    winner_selection: WinnerSelection,
    target_daree: Seq<u8>,
    accept: AcceptDareView,
    submit: SubmitProofView,
    proof_hash: Seq<u8>,
    approve: ApproveDareView,
    reject: RejectDareView,
    cancel: CancelDareView,
    expire: ExpireDareView,
    refuse: RefuseDareView,
    now: int,
)
    requires
        accept.dare.proof_state_consistent(),
        submit.dare.proof_state_consistent(),
        approve.dare.proof_state_consistent(),
        reject.dare.proof_state_consistent(),
        cancel.dare.proof_state_consistent(),
        expire.dare.proof_state_consistent(),
        refuse.dare.proof_state_consistent(),
    ensures
        create_dare::created(
            create,
            dare_id,
            description_hash,
            amount,
            deadline,
            dare_type,
            winner_selection,
            target_daree,
            now,
        ).proof_state_consistent(),
        accept_dare::rejection(accept, now) is None ==> accept_dare::outcome(
            accept,
            now,
        ).dare.proof_state_consistent(),
        submit_proof::rejection(submit, now) is None ==> submit_proof::outcome(
            submit,
            proof_hash,
        ).dare.proof_state_consistent(),
        approve_dare::rejection(approve) is None ==> approve_dare::outcome(
            approve,
            now,
        ).dare.proof_state_consistent(),
        reject_dare::rejection(reject) is None ==> reject_dare::outcome(
            reject,
        ).dare.proof_state_consistent(),
        cancel_dare::rejection(cancel) is None ==> cancel_dare::outcome(
            cancel,
        ).dare.proof_state_consistent(),
        expire_dare::rejection(expire, now) is None ==> expire_dare::outcome(
            expire,
            now,
        ).dare.proof_state_consistent(),
        refuse_dare::rejection(refuse) is None ==> refuse_dare::outcome(
            refuse,
        ).dare.proof_state_consistent(),
{
}

/// Creation establishes the invariant of a dare record.
pub proof fn creation_establishes_the_invariant(
    ctx: CreateDareView,
    dare_id: nat,
    description_hash: Seq<u8>,
    amount: nat,
    deadline: int,
    dare_type: DareType,
    winner_selection: WinnerSelection,
    target_daree: Seq<u8>,
    now: int,
)
    requires
        create_dare::rejection(ctx, amount, deadline, target_daree, now) is None,
    ensures
        create_dare::created(
            ctx,
            dare_id,
            description_hash,
            amount,
            deadline,
            dare_type,
            winner_selection,
            target_daree,
            now,
        ).wf(),
{
}

/// Every transition that is not rejected keeps the invariant of a dare
/// record, as long as whoever becomes the daree is not the null identity,
/// which no caller is.
pub proof fn transitions_keep_the_invariant(
    accept: AcceptDareView,
    submit: SubmitProofView,
    proof_hash: Seq<u8>,
    approve: ApproveDareView,
    reject: RejectDareView,
    cancel: CancelDareView,
    expire: ExpireDareView,
    refuse: RefuseDareView,
    now: int,
)
    requires
        accept.dare.wf(),
        submit.dare.wf(),
        approve.dare.wf(),
        reject.dare.wf(),
        cancel.dare.wf(),
        expire.dare.wf(),
        refuse.dare.wf(),
    ensures
        accept_dare::rejection(accept, now) is None && accept.daree != zero_bytes()
            ==> accept_dare::outcome(accept, now).dare.wf(),
        submit_proof::rejection(submit, now) is None && submit.submitter != zero_bytes()
            ==> submit_proof::outcome(submit, proof_hash).dare.wf(),
        approve_dare::rejection(approve) is None ==> approve_dare::outcome(approve, now).dare.wf(),
        reject_dare::rejection(reject) is None ==> reject_dare::outcome(reject).dare.wf(),
        cancel_dare::rejection(cancel) is None ==> cancel_dare::outcome(cancel).dare.wf(),
        expire_dare::rejection(expire, now) is None ==> expire_dare::outcome(
            expire,
            now,
        ).dare.wf(),
        refuse_dare::rejection(refuse) is None ==> refuse_dare::outcome(refuse).dare.wf(),
{
}

} // verus!
