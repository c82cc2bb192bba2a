//! The currency the marketplace moves, and the pooled escrow account that
//! holds the renters' deposits until they are refunded or claimed.

use crate::bounded::{pallet_account, pallet_account_of};
use crate::types::{AccountId, Balance};
use std::collections::HashMap;
use vstd::prelude::*;

verus! {

broadcast use vstd::std_specs::hash::group_hash_axioms;

/// Why a transfer was refused.
#[derive(Clone, Copy, PartialEq, Eq, Structural, Debug)]
pub enum TransferError {
    /// The payer would be left with less than the reserve that keeps an
    /// account alive.
    InsufficientFunds,
    /// The payee's balance would exceed the largest amount.
    Overflow,
}

/// The balances of all accounts, and the reserve that a paying account must
/// keep.
#[verifier::ext_equal]
pub struct LedgerView {
    pub balances: Map<AccountId, Balance>,
    pub reserve: Balance,
}

impl LedgerView {
    /// The balance of an account; nothing for an account never credited.
    pub open spec fn balance_of(self, who: AccountId) -> Balance {
        if self.balances.contains_key(who) {
            self.balances[who]
        } else {
            0
        }
    }

    /// Whether `amount` can move from `from` to `to`, and if not, why. Moving
    /// nothing always succeeds; otherwise the payer must keep the reserve and
    /// the payee's balance must stay within the largest amount.
    pub open spec fn transfer_outcome(
        self,
        from: AccountId,
        to: AccountId,
        amount: Balance,
    ) -> Result<(), TransferError> {
        if amount == 0 {
            Ok(())
        } else if self.balance_of(from) < amount + self.reserve {
            Err(TransferError::InsufficientFunds)
        } else if from != to && self.balance_of(to) + amount > u128::MAX {
            Err(TransferError::Overflow)
        } else {
            Ok(())
        }
    }

    /// The balances after `amount` has moved from `from` to `to`.
    pub open spec fn after_transfer(
        self,
        from: AccountId,
        to: AccountId,
        amount: Balance,
    ) -> LedgerView {
        if amount == 0 || from == to {
            self
        } else {
            LedgerView {
                balances: self.balances.insert(
                    from,
                    (self.balance_of(from) - amount) as Balance,
                ).insert(to, (self.balance_of(to) + amount) as Balance),
                reserve: self.reserve,
            }
        }
    }

    /// The balances after a transfer was asked for: moved if it was accepted,
    /// untouched if it was refused.
    pub open spec fn transfer(self, from: AccountId, to: AccountId, amount: Balance) -> LedgerView {
        if self.transfer_outcome(from, to, amount).is_ok() {
            self.after_transfer(from, to, amount)
        } else {
            self
        }
    }
}

/// An in-memory currency: one balance per account.
pub struct Ledger {
    balances: HashMap<AccountId, Balance>,
    existential_deposit: Balance,
}

impl View for Ledger {
    type V = LedgerView;

    closed spec fn view(&self) -> LedgerView {
        LedgerView { balances: self.balances@, reserve: self.existential_deposit }
    }
}

impl Ledger {
    /// A currency without accounts, in which a paying account must keep
    /// `existential_deposit`.
    pub fn new(existential_deposit: Balance) -> (ledger: Ledger)
        ensures
            ledger@.balances == Map::<AccountId, Balance>::empty(),
            ledger@.reserve == existential_deposit,
    {
        Ledger { balances: HashMap::new(), existential_deposit }
    }

    pub fn existential_deposit(&self) -> (reserve: Balance)
        ensures
            reserve == self@.reserve,
    {
        self.existential_deposit
    }

    pub fn free_balance(&self, who: AccountId) -> (balance: Balance)
        ensures
            balance == self@.balance_of(who),
    {
        match self.balances.get(&who) {
            Some(balance) => *balance,
            None => 0,
        }
    }

    /// Sets the balance of one account, as the environment that issues the
    /// currency would.
    pub fn set_balance(&mut self, who: AccountId, amount: Balance)
        ensures
            final(self)@.balances == old(self)@.balances.insert(who, amount),
            final(self)@.reserve == old(self)@.reserve,
    {
        self.balances.insert(who, amount);
    }

    /// Whether a transfer would be accepted; nothing moves.
    pub fn can_transfer(&self, from: AccountId, to: AccountId, amount: Balance) -> (outcome: Result<
        (),
        TransferError,
    >)
        ensures
            outcome == self@.transfer_outcome(from, to, amount),
    {
        if amount == 0 {
            return Ok(());
        }
        let available: Balance = self.free_balance(from);
        if available < amount || available - amount < self.existential_deposit {
            return Err(TransferError::InsufficientFunds);
        }
        if from != to && self.free_balance(to) > u128::MAX - amount {
            return Err(TransferError::Overflow);
        }
        Ok(())
    }

    /// Moves `amount` from `from` to `to`, keeping the payer alive. A refused
    /// transfer moves nothing.
    pub fn transfer(&mut self, from: AccountId, to: AccountId, amount: Balance) -> (outcome: Result<
        (),
        TransferError,
    >)
        ensures
            outcome == old(self)@.transfer_outcome(from, to, amount),
            final(self)@ == old(self)@.transfer(from, to, amount),
    {
        match self.can_transfer(from, to, amount) {
            Err(refusal) => Err(refusal),
            Ok(()) => {
                if amount != 0 && from != to {
                    let paid: Balance = self.free_balance(from) - amount;
                    let received: Balance = self.free_balance(to) + amount;
                    self.balances.insert(from, paid);
                    self.balances.insert(to, received);
                }
                Ok(())
            },
        }
    }
}

/// The one account that holds every deposit of the marketplace. Its address
/// follows from the marketplace's identifier alone.
#[derive(Clone, Copy, PartialEq, Eq, Structural, Debug)]
pub struct EscrowAccount {
    account: AccountId,
}

impl EscrowAccount {
    pub closed spec fn id(self) -> AccountId {
        self.account
    }

    /// The escrow account of the marketplace identified by `pallet_id`.
    pub fn new(pallet_id: &[u8; 8]) -> (escrow: EscrowAccount)
        ensures
            escrow.id() == pallet_account_of(pallet_id@),
    {
        EscrowAccount { account: pallet_account(pallet_id) }
    }

    pub fn account(&self) -> (account: AccountId)
        ensures
            account == self.id(),
    {
        self.account
    }

    /// Moves `amount` from `payer` into escrow.
    pub fn hold(&self, ledger: &mut Ledger, payer: AccountId, amount: Balance) -> (outcome: Result<
        (),
        TransferError,
    >)
        ensures
            outcome == old(ledger)@.transfer_outcome(payer, self.id(), amount),
            final(ledger)@ == old(ledger)@.transfer(payer, self.id(), amount),
    {
        ledger.transfer(payer, self.account, amount)
    }

    /// Moves `amount` out of escrow to `payee`.
    pub fn release(&self, ledger: &mut Ledger, payee: AccountId, amount: Balance) -> (outcome:
        Result<(), TransferError>)
        ensures
            outcome == old(ledger)@.transfer_outcome(self.id(), payee, amount),
            final(ledger)@ == old(ledger)@.transfer(self.id(), payee, amount),
    {
        ledger.transfer(self.account, payee, amount)
    }
}

/// A transfer between two accounts leaves the sum of their balances as it
/// was, and every other balance too.
pub proof fn lemma_transfer_conserves(
    ledger: LedgerView,
    from: AccountId,
    to: AccountId,
    amount: Balance,
    other: AccountId,
)
    ensures
        ledger.transfer(from, to, amount).reserve == ledger.reserve,
        from != to ==> ledger.transfer(from, to, amount).balance_of(from) + ledger.transfer(
            from,
            to,
            amount,
        ).balance_of(to) == ledger.balance_of(from) + ledger.balance_of(to),
        from == to ==> ledger.transfer(from, to, amount).balance_of(from) == ledger.balance_of(
            from,
        ),
        other != from && other != to ==> ledger.transfer(from, to, amount).balance_of(other)
            == ledger.balance_of(other),
        ledger.transfer_outcome(from, to, amount).is_ok() && from != to ==> ledger.transfer(
            from,
            to,
            amount,
        ).balance_of(to) == ledger.balance_of(to) + amount,
{
}

} // verus!
