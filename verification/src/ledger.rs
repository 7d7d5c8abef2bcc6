//! An in-memory balance book for the settlement token.
//!
//! The real balance book lives in the ledger platform; the engine only ever
//! asks it, through the [`Transfer`](crate::state::Transfer) values the
//! operations return, to move value between balances atomically with the
//! operation. `Balances` gives those requests an executable meaning — a host
//! or a test applies each returned transfer to a `Balances` and the verified
//! contracts here say exactly how every balance moves.

use crate::state::Transfer;
use vstd::hash_map::HashMapWithView;
use vstd::prelude::*;

verus! {

/// The balance a book gives to an account: its entry, or zero when the
/// account has never been touched.
pub open spec fn balance_in(book: Map<u64, u64>, id: u64) -> u64 {
    if book.contains_key(id) {
        book[id]
    } else {
        0
    }
}

/// The book after a transfer: the source is debited, then the destination is
/// credited. A transfer from an account to itself leaves every balance as it
/// was.
pub open spec fn apply_transfer_spec(book: Map<u64, u64>, t: Transfer) -> Map<u64, u64> {
    let debited = book.insert(t.from, (balance_in(book, t.from) - t.amount) as u64);
    debited.insert(t.to, (balance_in(debited, t.to) + t.amount) as u64)
}

/// A single-token balance book keyed by account identity.
pub struct Balances {
    accounts: HashMapWithView<u64, u64>,
}

impl View for Balances {
    type V = Map<u64, u64>;

    closed spec fn view(&self) -> Map<u64, u64> {
        self.accounts@
    }
}

impl Balances {
    /// An empty book: every account holds zero.
    pub fn new() -> (book: Self)
        ensures
            book@ == Map::<u64, u64>::empty(),
            forall|id: u64| balance_in(book@, id) == 0,
    {
        Balances { accounts: HashMapWithView::new() }
    }

    /// The balance of one account.
    pub fn balance_of(&self, id: u64) -> (amount: u64)
        ensures
            amount == balance_in(self@, id),
    {
        match self.accounts.get(&id) {
            Some(amount) => *amount,
            None => 0,
        }
    }

    /// Overwrites one account's balance; how a host funds accounts before
    /// driving the engine.
    pub fn set_balance(&mut self, id: u64, amount: u64)
        ensures
            final(self)@ == old(self)@.insert(id, amount),
            balance_in(final(self)@, id) == amount,
            forall|other: u64| other != id ==> balance_in(final(self)@, other) == balance_in(
                old(self)@,
                other,
            ),
    {
        self.accounts.insert(id, amount);
    }

    /// Performs a transfer request: debits the source, credits the
    /// destination. Mirrors the platform primitive, which fails the whole
    /// operation when the source balance is insufficient — here the caller
    /// must have established sufficiency (and room at the destination)
    /// before applying.
    pub fn apply_transfer(&mut self, t: &Transfer)
        requires
            t.amount <= balance_in(old(self)@, t.from),
            t.from != t.to ==> balance_in(old(self)@, t.to) + t.amount <= u64::MAX,
        ensures
            final(self)@ == apply_transfer_spec(old(self)@, *t),
            t.from != t.to ==> balance_in(final(self)@, t.from) == balance_in(old(self)@, t.from)
                - t.amount,
            t.from != t.to ==> balance_in(final(self)@, t.to) == balance_in(old(self)@, t.to)
                + t.amount,
            t.from == t.to ==> balance_in(final(self)@, t.to) == balance_in(old(self)@, t.to),
            forall|other: u64| other != t.from && other != t.to ==> balance_in(final(self)@, other)
                == balance_in(old(self)@, other),
    {
        let source = self.balance_of(t.from);
        self.accounts.insert(t.from, source - t.amount);
        let destination = self.balance_of(t.to);
        self.accounts.insert(t.to, destination + t.amount);
    }
}

/// How one transfer moves value: the destination gains exactly the amount,
/// the source loses exactly the amount, no other balance moves, and a
/// self-transfer moves nothing.
pub proof fn lemma_transfer_effect(book: Map<u64, u64>, t: Transfer)
    requires
        t.amount <= balance_in(book, t.from),
        t.from != t.to ==> balance_in(book, t.to) + t.amount <= u64::MAX,
    ensures
        t.from != t.to ==> balance_in(apply_transfer_spec(book, t), t.to) == balance_in(book, t.to)
            + t.amount,
        t.from != t.to ==> balance_in(apply_transfer_spec(book, t), t.from) == balance_in(
            book,
            t.from,
        ) - t.amount,
        t.from == t.to ==> balance_in(apply_transfer_spec(book, t), t.to) == balance_in(
            book,
            t.to,
        ),
        forall|other: u64| other != t.from && other != t.to ==> balance_in(
            apply_transfer_spec(book, t),
            other,
        ) == balance_in(book, other),
{
}

} // verus!
