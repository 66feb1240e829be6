//! The currency ledger that the creature registry draws on.
use vstd::prelude::*;
use crate::{AccountId, Balance};

verus! {

/// Why the ledger refused an operation.
#[derive(Clone, Copy, Debug, PartialEq, Eq)]
pub enum LedgerError {
    /// The account's free funds do not cover the amount.
    InsufficientBalance,
    /// The operation would take the account below the least balance it may hold.
    KeepAlive,
    /// The receiving account would end up below the least balance it may hold.
    ExistentialDeposit,
    /// A balance would exceed what the ledger can hold.
    Overflow,
}

/// Account balances, held outside the registries. The registries never
/// read balances: they only ask the ledger to reserve, release or move
/// funds, and act on whether it agreed.
pub trait Ledger {
    /// Earmarks `amount` of `who`'s free funds.
    fn reserve(&mut self, who: AccountId, amount: Balance) -> Result<(), LedgerError>;

    /// Gives back to `who`'s free funds up to `amount` of its reserved funds.
    fn unreserve(&mut self, who: AccountId, amount: Balance);

    /// Moves `amount` of free funds from `from` to `to`, keeping `from` alive.
    fn transfer(&mut self, from: AccountId, to: AccountId, amount: Balance) -> Result<(), LedgerError>;
}

/// One request that a registry made of the ledger, with the ledger's answer.
#[derive(Clone, Copy, Debug, PartialEq, Eq)]
pub enum LedgerRequest {
    Reserve { who: AccountId, amount: Balance, answer: Result<(), LedgerError> },
    Unreserve { who: AccountId, amount: Balance },
    Transfer {
        from: AccountId,
        to: AccountId,
        amount: Balance,
        answer: Result<(), LedgerError>,
    },
}

impl LedgerRequest {
    /// What the ledger answered; a release always goes through.
    pub open spec fn answer(self) -> Result<(), LedgerError> {
        match self {
            LedgerRequest::Reserve { answer, .. } => answer,
            LedgerRequest::Unreserve { .. } => Ok(()),
            LedgerRequest::Transfer { answer, .. } => answer,
        }
    }
}

/// A ledger as a registry holds it. Besides the ledger itself it keeps a
/// ghost journal of every request made through it and of the answer given,
/// so that the registries' contracts can say what they asked and how they
/// acted on the answer.
#[verifier::reject_recursive_types(L)]
pub struct LedgerHandle<L> {
    ledger: L,
    journal: Ghost<Seq<LedgerRequest>>,
}

impl<L: Ledger> LedgerHandle<L> {
    /// The requests made so far, oldest first.
    pub closed spec fn journal(&self) -> Seq<LedgerRequest> {
        self.journal@
    }

    /// The ledger held.
    pub closed spec fn inner(&self) -> L {
        self.ledger
    }

    pub fn new(ledger: L) -> (r: Self)
        ensures
            r.journal() == Seq::<LedgerRequest>::empty(),
            r.inner() == ledger,
    {
        LedgerHandle { ledger, journal: Ghost(Seq::empty()) }
    }

    /// The ledger held, for reading.
    pub fn ledger(&self) -> (r: &L)
        ensures
            *r == self.inner(),
    {
        &self.ledger
    }

    /// Asks the ledger to reserve `amount` of `who`'s free funds.
    pub fn reserve(&mut self, who: AccountId, amount: Balance) -> (r: Result<(), LedgerError>)
        ensures
            final(self).journal() == old(self).journal().push(
                LedgerRequest::Reserve { who, amount, answer: r },
            ),
    {
        let r = self.ledger.reserve(who, amount);
        self.journal = Ghost(self.journal@.push(LedgerRequest::Reserve { who, amount, answer: r }));
        r
    }

    /// Asks the ledger to release up to `amount` of `who`'s reserved funds.
    pub fn unreserve(&mut self, who: AccountId, amount: Balance)
        ensures
            final(self).journal() == old(self).journal().push(
                LedgerRequest::Unreserve { who, amount },
            ),
    {
        self.ledger.unreserve(who, amount);
        self.journal = Ghost(self.journal@.push(LedgerRequest::Unreserve { who, amount }));
    }

    /// Asks the ledger to move `amount` of free funds from `from` to `to`.
    pub fn transfer(&mut self, from: AccountId, to: AccountId, amount: Balance) -> (r: Result<
        (),
        LedgerError,
    >)
        ensures
            final(self).journal() == old(self).journal().push(
                LedgerRequest::Transfer { from, to, amount, answer: r },
            ),
    {
        let r = self.ledger.transfer(from, to, amount);
        self.journal = Ghost(
            self.journal@.push(LedgerRequest::Transfer { from, to, amount, answer: r }),
        );
        r
    }
}

} // verus!
