//! The operations that the marketplace offers, one per transition.
//!
//! Each takes the records it acts on, the call's payload and, where a rule
//! depends on time, the current time in epoch seconds as the host's clock
//! gives it. Each either takes full effect or is rejected with its reason and
//! no effect.

use vstd::prelude::*;
use crate::error::DareMeError;
use crate::identity::Identity;
use crate::instructions::accept_dare::AcceptDare;
use crate::instructions::approve_dare::ApproveDare;
use crate::instructions::cancel_dare::CancelDare;
use crate::instructions::create_dare::CreateDare;
use crate::instructions::expire_dare::ExpireDare;
use crate::instructions::refuse_dare::RefuseDare;
use crate::instructions::reject_dare::RejectDare;
use crate::instructions::submit_proof::SubmitProof;
use crate::instructions;
use crate::state::{Dare, DareType, WinnerSelection};
use crate::vault::{Deposit, Payout};

verus! {

/// Creates a dare and locks its escrow. Pass the null identity as
/// `target_daree` for a dare that is aimed at nobody.
pub fn create_dare(
    ctx: &mut CreateDare,
    dare_id: u64,
    description_hash: [u8; 32],
    amount: u64,
    deadline: i64,
    dare_type: DareType,
    winner_selection: WinnerSelection,
    target_daree: Identity,
    now: i64,
) -> (r: Result<(Dare, Deposit), DareMeError>)
    ensures
        match r {
            Ok((dare, paid_in)) => {
                &&& instructions::create_dare::rejection(
                    old(ctx)@,
                    amount as nat,
                    deadline as int,
                    target_daree@,
                    now as int,
                ) is None
                &&& dare@ == instructions::create_dare::created(
                    old(ctx)@,
                    dare_id as nat,
                    description_hash@,
                    amount as nat,
                    deadline as int,
                    dare_type,
                    winner_selection,
                    target_daree@,
                    now as int,
                )
                &&& final(ctx)@ == instructions::create_dare::outcome(old(ctx)@, amount as nat)
                &&& paid_in@ == instructions::create_dare::deposit(old(ctx)@, amount as nat)
            },
            Err(e) => {
                &&& instructions::create_dare::rejection(
                    old(ctx)@,
                    amount as nat,
                    deadline as int,
                    target_daree@,
                    now as int,
                ) == Some(e)
                &&& *final(ctx) == *old(ctx)
            },
        },
{
    instructions::create_dare::handler(
        ctx,
        dare_id,
        description_hash,
        amount,
        deadline,
        dare_type,
        winner_selection,
        target_daree,
        now,
    )
}

/// Accepts a direct dare.
pub fn accept_dare(ctx: &mut AcceptDare, now: i64) -> (r: Result<(), DareMeError>)
    ensures
        match r {
            Ok(()) => {
                &&& instructions::accept_dare::rejection(old(ctx)@, now as int) is None
                &&& final(ctx)@ == instructions::accept_dare::outcome(old(ctx)@, now as int)
            },
            Err(e) => {
                &&& instructions::accept_dare::rejection(old(ctx)@, now as int) == Some(e)
                &&& *final(ctx) == *old(ctx)
            },
        },
{
    instructions::accept_dare::handler(ctx, now)
}

/// Submits the proof for a dare.
pub fn submit_proof(ctx: &mut SubmitProof, proof_hash: [u8; 32], now: i64) -> (r: Result<
    (),
    DareMeError,
>)
    ensures
        match r {
            Ok(()) => {
                &&& instructions::submit_proof::rejection(old(ctx)@, now as int) is None
                &&& final(ctx)@ == instructions::submit_proof::outcome(old(ctx)@, proof_hash@)
            },
            Err(e) => {
                &&& instructions::submit_proof::rejection(old(ctx)@, now as int) == Some(e)
                &&& *final(ctx) == *old(ctx)
            },
        },
{
    instructions::submit_proof::handler(ctx, proof_hash, now)
}

/// Approves the submitted proof and releases the escrow to the daree.
pub fn approve_dare(ctx: &mut ApproveDare, now: i64) -> (r: Result<Payout, DareMeError>)
    ensures
        match r {
            Ok(paid) => {
                &&& instructions::approve_dare::rejection(old(ctx)@) is None
                &&& final(ctx)@ == instructions::approve_dare::outcome(old(ctx)@, now as int)
                &&& paid@ == instructions::approve_dare::payout(old(ctx)@)
            },
            Err(e) => {
                &&& instructions::approve_dare::rejection(old(ctx)@) == Some(e)
                &&& *final(ctx) == *old(ctx)
            },
        },
{
    instructions::approve_dare::handler(ctx, now)
}

/// Rejects the submitted proof; the daree can submit another.
pub fn reject_dare(ctx: &mut RejectDare) -> (r: Result<(), DareMeError>)
    ensures
        match r {
            Ok(()) => {
                &&& instructions::reject_dare::rejection(old(ctx)@) is None
                &&& final(ctx)@ == instructions::reject_dare::outcome(old(ctx)@)
            },
            Err(e) => {
                &&& instructions::reject_dare::rejection(old(ctx)@) == Some(e)
                &&& *final(ctx) == *old(ctx)
            },
        },
{
    instructions::reject_dare::handler(ctx)
}

/// Cancels a dare before anyone accepted it and refunds the challenger.
pub fn cancel_dare(ctx: &mut CancelDare) -> (r: Result<Payout, DareMeError>)
    ensures
        match r {
            Ok(paid) => {
                &&& instructions::cancel_dare::rejection(old(ctx)@) is None
                &&& final(ctx)@ == instructions::cancel_dare::outcome(old(ctx)@)
                &&& paid@ == instructions::cancel_dare::payout(old(ctx)@)
            },
            Err(e) => {
                &&& instructions::cancel_dare::rejection(old(ctx)@) == Some(e)
                &&& *final(ctx) == *old(ctx)
            },
        },
{
    instructions::cancel_dare::handler(ctx)
}

/// The permissionless crank: resolves a dare whose time has run out.
pub fn expire_dare(ctx: &mut ExpireDare, now: i64) -> (r: Result<Payout, DareMeError>)
    ensures
        match r {
            Ok(paid) => {
                &&& instructions::expire_dare::rejection(old(ctx)@, now as int) is None
                &&& final(ctx)@ == instructions::expire_dare::outcome(old(ctx)@, now as int)
                &&& paid@ == instructions::expire_dare::payout(old(ctx)@)
            },
            Err(e) => {
                &&& instructions::expire_dare::rejection(old(ctx)@, now as int) == Some(e)
                &&& *final(ctx) == *old(ctx)
            },
        },
{
    instructions::expire_dare::handler(ctx, now)
}

/// The targeted daree refuses a direct dare; the challenger is refunded.
pub fn refuse_dare(ctx: &mut RefuseDare) -> (r: Result<Payout, DareMeError>)
    ensures
        match r {
            Ok(paid) => {
                &&& instructions::refuse_dare::rejection(old(ctx)@) is None
                &&& final(ctx)@ == instructions::refuse_dare::outcome(old(ctx)@)
                &&& paid@ == instructions::refuse_dare::payout(old(ctx)@)
            },
            Err(e) => {
                &&& instructions::refuse_dare::rejection(old(ctx)@) == Some(e)
                &&& *final(ctx) == *old(ctx)
            },
        },
{
    instructions::refuse_dare::handler(ctx)
}

} // verus!
