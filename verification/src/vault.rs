//! Escrow custody.
//!
//! Every dare has one vault. It holds the locked funds from creation until
//! the first terminal transition, which pays out all of it at once. The
//! library decides each movement of funds and keeps the vault's balance; the
//! host carries the movement out.

use vstd::prelude::*;
use crate::error::DareMeError;
use crate::identity::Identity;

verus! {

/// The custody account of one dare. Its view is its balance.
#[derive(Clone, Copy, PartialEq, Eq, Debug)]
pub struct Vault {
    pub lamports: u64,
}

impl View for Vault {
    type V = nat;

    open spec fn view(&self) -> nat {
        self.lamports as nat
    }
}

/// Funds that a participant, by their own consent, puts into the vault.
#[derive(Clone, Copy, PartialEq, Eq, Debug)]
pub struct Deposit {
    pub from: Identity,
    pub lamports: u64,
}

/// The mathematical view of a [`Deposit`].
pub struct DepositView {
    pub from: Seq<u8>,
    pub lamports: nat,
}

impl View for Deposit {
    type V = DepositView;

    open spec fn view(&self) -> DepositView {
        DepositView { from: self.from@, lamports: self.lamports as nat }
    }
}

/// Funds that the protocol, on behalf of the vault, pays to a recipient.
#[derive(Clone, Copy, PartialEq, Eq, Debug)]
pub struct Payout {
    pub to: Identity,
    pub lamports: u64,
}

/// The mathematical view of a [`Payout`].
pub struct PayoutView {
    pub to: Seq<u8>,
    pub lamports: nat,
}

impl View for Payout {
    type V = PayoutView;

    open spec fn view(&self) -> PayoutView {
        PayoutView { to: self.to@, lamports: self.lamports as nat }
    }
}

impl Vault {
    /// Takes `lamports` from `from` into the vault. Rejected, with the vault
    /// unchanged, when the balance would not fit.
    pub fn lock(&mut self, from: Identity, lamports: u64) -> (r: Result<Deposit, DareMeError>)
        ensures
            match r {
                Ok(deposit) => {
                    &&& old(self)@ + lamports <= u64::MAX
                    &&& final(self)@ == old(self)@ + lamports
                    &&& deposit@ == (DepositView { from: from@, lamports: lamports as nat })
                },
                Err(e) => {
                    &&& e == DareMeError::ArithmeticOverflow
                    &&& old(self)@ + lamports > u64::MAX
                    &&& *final(self) == *old(self)
                },
            },
    {
        match self.lamports.checked_add(lamports) {
            Some(balance) => {
                self.lamports = balance;
                Ok(Deposit { from, lamports })
            },
            None => Err(DareMeError::ArithmeticOverflow),
        }
    }

    /// Pays the whole balance to `to`, whatever it is, and leaves the vault
    /// empty.
    pub fn release(&mut self, to: Identity) -> (payout: Payout)
        ensures
            final(self)@ == 0,
            payout@ == (PayoutView { to: to@, lamports: old(self)@ }),
    {
        let lamports: u64 = self.lamports;
        self.lamports = 0;
        Payout { to, lamports }
    }
}

} // verus!
