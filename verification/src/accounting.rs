//! User statistics accounting.
//!
//! A total that grows must fit its width: an overflow rejects the whole
//! transition. The spent total shrinks on refunds and stops at zero, since it
//! is telemetry and no balance.

use vstd::prelude::*;
use crate::error::DareMeError;
use crate::identity::{zero_bytes, Identity};
use crate::state::{UserStats, UserStatsView};

verus! {

/// One more than `counter`, unless that does not fit.
pub fn checked_increment(counter: u32) -> (r: Result<u32, DareMeError>)
    ensures
        match r {
            Ok(n) => n == counter + 1,
            Err(e) => e == DareMeError::ArithmeticOverflow && counter == u32::MAX,
        },
{
    match counter.checked_add(1) {
        Some(n) => Ok(n),
        None => Err(DareMeError::ArithmeticOverflow),
    }
}

/// `total` raised by `amount`, unless that does not fit.
pub fn checked_credit(total: u64, amount: u64) -> (r: Result<u64, DareMeError>)
    ensures
        match r {
            Ok(n) => n == total + amount,
            Err(e) => e == DareMeError::ArithmeticOverflow && total + amount > u64::MAX,
        },
{
    match total.checked_add(amount) {
        Some(n) => Ok(n),
        None => Err(DareMeError::ArithmeticOverflow),
    }
}

/// `total` lowered by `amount`, but never below zero.
pub fn saturating_debit(total: u64, amount: u64) -> (n: u64)
    ensures
        n == floor_sub(total as nat, amount as nat),
{
    total.saturating_sub(amount)
}

/// Subtraction that stops at zero.
pub open spec fn floor_sub(total: nat, amount: nat) -> nat {
    if total >= amount {
        (total - amount) as nat
    } else {
        0
    }
}

impl UserStatsView {
    /// The record after its first touch on behalf of `user`: an unclaimed
    /// record takes the identity and the derivation marker; a claimed one
    /// stays as it is.
    pub open spec fn claimed_by(self, user: Seq<u8>, bump: u8) -> UserStatsView {
        if self.user == zero_bytes() {
            UserStatsView { user, bump, ..self }
        } else {
            self
        }
    }

    /// Whether one more created dare of `amount` fits.
    pub open spec fn created_fits(self, amount: nat) -> bool {
        self.dares_created + 1 <= u32::MAX && self.total_spent + amount <= u64::MAX
    }

    /// The record after its owner created a dare of `amount`.
    pub open spec fn created(self, amount: nat) -> UserStatsView {
        UserStatsView {
            dares_created: self.dares_created + 1,
            total_spent: self.total_spent + amount,
            ..self
        }
    }

    /// Whether one more accepted dare fits.
    pub open spec fn accepted_fits(self) -> bool {
        self.dares_accepted + 1 <= u32::MAX
    }

    /// The record after its owner accepted a dare.
    pub open spec fn accepted(self) -> UserStatsView {
        UserStatsView { dares_accepted: self.dares_accepted + 1, ..self }
    }

    /// Whether one more completed dare that earned `amount` fits.
    pub open spec fn completed_fits(self, amount: nat) -> bool {
        self.dares_completed + 1 <= u32::MAX && self.total_earned + amount <= u64::MAX
    }

    /// The record after its owner completed a dare and earned `amount`.
    pub open spec fn completed(self, amount: nat) -> UserStatsView {
        UserStatsView {
            dares_completed: self.dares_completed + 1,
            total_earned: self.total_earned + amount,
            ..self
        }
    }

    /// Whether one more failed dare fits.
    pub open spec fn failed_fits(self) -> bool {
        self.dares_failed + 1 <= u32::MAX
    }

    /// The record after its owner let a dare expire.
    pub open spec fn failed(self) -> UserStatsView {
        UserStatsView { dares_failed: self.dares_failed + 1, ..self }
    }

    /// The record after `amount` went back to its owner.
    pub open spec fn refunded(self, amount: nat) -> UserStatsView {
        UserStatsView { total_spent: floor_sub(self.total_spent, amount), ..self }
    }

    /// None of the four counters, nor the earned total, is lower than in
    /// `before`.
    pub open spec fn no_counter_below(self, before: UserStatsView) -> bool {
        &&& self.dares_created >= before.dares_created
        &&& self.dares_accepted >= before.dares_accepted
        &&& self.dares_completed >= before.dares_completed
        &&& self.dares_failed >= before.dares_failed
        &&& self.total_earned >= before.total_earned
    }
}

impl UserStats {
    /// A record that nobody has claimed: null identity, all totals zero.
    pub fn unclaimed() -> (stats: UserStats)
        ensures
            stats@ == (UserStatsView {
                user: zero_bytes(),
                dares_created: 0,
                dares_accepted: 0,
                dares_completed: 0,
                dares_failed: 0,
                total_earned: 0,
                total_spent: 0,
                bump: 0,
            }),
    {
        UserStats {
            user: Identity::default(),
            dares_created: 0,
            dares_accepted: 0,
            dares_completed: 0,
            dares_failed: 0,
            total_earned: 0,
            total_spent: 0,
            bump: 0,
        }
    }

    /// Claims the record for `user` if nobody has claimed it yet.
    pub fn claim(&mut self, user: Identity, bump: u8)
        ensures
            final(self)@ == old(self)@.claimed_by(user@, bump),
    {
        if self.user.is_null() {
            self.user = user;
            self.bump = bump;
        }
    }

    /// Counts a created dare and adds `amount` to the spent total.
    pub fn record_created(&mut self, amount: u64) -> (r: Result<(), DareMeError>)
        ensures
            match r {
                Ok(()) => old(self)@.created_fits(amount as nat) && final(self)@ == old(
                    self,
                )@.created(amount as nat),
                Err(e) => e == DareMeError::ArithmeticOverflow && !old(self)@.created_fits(
                    amount as nat,
                ) && *final(self) == *old(self),
            },
    {
        let created: u32 = checked_increment(self.dares_created)?;
        let spent: u64 = checked_credit(self.total_spent, amount)?;
        self.dares_created = created;
        self.total_spent = spent;
        Ok(())
    }

    /// Counts an accepted dare.
    pub fn record_accepted(&mut self) -> (r: Result<(), DareMeError>)
        ensures
            match r {
                Ok(()) => old(self)@.accepted_fits() && final(self)@ == old(self)@.accepted(),
                Err(e) => e == DareMeError::ArithmeticOverflow && !old(self)@.accepted_fits()
                    && *final(self) == *old(self),
            },
    {
        let accepted: u32 = checked_increment(self.dares_accepted)?;
        self.dares_accepted = accepted;
        Ok(())
    }

    /// Counts a completed dare and adds `amount` to the earned total.
    pub fn record_completed(&mut self, amount: u64) -> (r: Result<(), DareMeError>)
        ensures
            match r {
                Ok(()) => old(self)@.completed_fits(amount as nat) && final(self)@ == old(
                    self,
                )@.completed(amount as nat),
                Err(e) => e == DareMeError::ArithmeticOverflow && !old(self)@.completed_fits(
                    amount as nat,
                ) && *final(self) == *old(self),
            },
    {
        let completed: u32 = checked_increment(self.dares_completed)?;
        let earned: u64 = checked_credit(self.total_earned, amount)?;
        self.dares_completed = completed;
        self.total_earned = earned;
        Ok(())
    }

    /// Counts a failed dare.
    pub fn record_failed(&mut self) -> (r: Result<(), DareMeError>)
        ensures
            match r {
                Ok(()) => old(self)@.failed_fits() && final(self)@ == old(self)@.failed(),
                Err(e) => e == DareMeError::ArithmeticOverflow && !old(self)@.failed_fits()
                    && *final(self) == *old(self),
            },
    {
        let failed: u32 = checked_increment(self.dares_failed)?;
        self.dares_failed = failed;
        Ok(())
    }

    /// Takes a refunded `amount` off the spent total, stopping at zero.
    pub fn record_refund(&mut self, amount: u64)
        ensures
            final(self)@ == old(self)@.refunded(amount as nat),
    {
        self.total_spent = saturating_debit(self.total_spent, amount);
    }
}

} // verus!
