//! The balance value object and its two operations.

use crate::identifier::{fresh_account_number, is_random_identifier};
use vstd::prelude::*;

verus! {

/// Minor currency units in one major unit.
pub const MINOR_PER_MAJOR: i32 = 100;

/// Why a deposit or a withdrawal was refused.
#[derive(Clone, Copy, Debug, PartialEq, Eq, Structural)]
pub enum ValidationError {
    /// A deposit of less than one major unit.
    InvalidAmount,
    /// A withdrawal of more major units than the balance holds in full.
    InsufficientFunds,
}

/// The refusal in words.
pub open spec fn validation_message(e: ValidationError) -> Seq<char> {
    match e {
        ValidationError::InvalidAmount => "Can't deposit value smaller than 1"@,
        ValidationError::InsufficientFunds => "Can't withdraw a value larger than current balance"@,
    }
}

impl ValidationError {
    /// The refusal in words.
    pub fn message(&self) -> (text: &'static str)
        ensures
            text@ == validation_message(*self),
    {
        match self {
            ValidationError::InvalidAmount => "Can't deposit value smaller than 1",
            ValidationError::InsufficientFunds => "Can't withdraw a value larger than current balance",
        }
    }
}

/// The two operations on a balance.
#[derive(Clone, Copy, Debug, PartialEq, Eq, Structural)]
pub enum TransactionKind {
    Deposit,
    Withdraw,
}

/// What an account is, mathematically: its number and its balance in minor
/// units.
pub struct AccountModel {
    pub number: u128,
    pub balance: int,
}

/// The balance after depositing `amount` major units, or the refusal of an
/// amount below one.
pub open spec fn deposit_outcome(balance: int, amount: int) -> Result<int, ValidationError> {
    if amount < 1 {
        Err(ValidationError::InvalidAmount)
    } else {
        Ok(balance + amount * MINOR_PER_MAJOR)
    }
}

/// The balance after withdrawing `amount` major units, or the refusal of an
/// amount above the ceiling. The ceiling is the number of whole major units
/// in the balance: what is left of the balance beyond them does not count
/// towards it. An amount below zero is under the ceiling like any other, and
/// taking it adds to the balance.
pub open spec fn withdraw_outcome(balance: int, amount: int) -> Result<int, ValidationError> {
    if amount > balance / (MINOR_PER_MAJOR as int) {
        Err(ValidationError::InsufficientFunds)
    } else {
        Ok(balance - amount * MINOR_PER_MAJOR)
    }
}

/// The outcome of either operation.
pub open spec fn transaction_outcome(balance: int, kind: TransactionKind, amount: int) -> Result<
    int,
    ValidationError,
> {
    match kind {
        TransactionKind::Deposit => deposit_outcome(balance, amount),
        TransactionKind::Withdraw => withdraw_outcome(balance, amount),
    }
}

/// Whether the balance that the operation leaves can be held. A refused
/// operation leaves nothing new to hold.
pub open spec fn transaction_fits(balance: int, kind: TransactionKind, amount: int) -> bool {
    transaction_outcome(balance, kind, amount) matches Ok(after) ==> after <= i32::MAX
}

/// An account: a number that identifies it and a balance in minor units,
/// which is never negative and changes only through `deposit` and `withdraw`.
#[derive(Debug)]
pub struct Account {
    account_number: u128,
    balance: i32,
}

impl View for Account {
    type V = AccountModel;

    closed spec fn view(&self) -> AccountModel {
        AccountModel { number: self.account_number, balance: self.balance as int }
    }
}

impl Account {
    #[verifier::type_invariant]
    spec fn non_negative(self) -> bool {
        self.balance >= 0
    }

    /// A new account: a fresh number and nothing in it.
    pub fn new() -> (a: Account)
        ensures
            a@.balance == 0,
            is_random_identifier(a@.number),
    {
        Account { account_number: fresh_account_number(), balance: 0 }
    }

    /// The account with the given number and balance, if the balance is one
    /// that an account can have.
    pub fn restore(account_number: u128, balance: i32) -> (r: Option<Account>)
        ensures
            balance < 0 ==> r is None,
            balance >= 0 ==> r is Some && r->0@ == (AccountModel {
                number: account_number,
                balance: balance as int,
            }),
    {
        if balance < 0 {
            None
        } else {
            Some(Account { account_number, balance })
        }
    }

    /// The number that identifies the account.
    pub fn account_number(&self) -> (n: u128)
        ensures
            n == self@.number,
    {
        self.account_number
    }

    /// The balance in minor units.
    pub fn balance(&self) -> (b: i32)
        ensures
            b == self@.balance,
            b >= 0,
    {
        proof {
            use_type_invariant(self);
        }
        self.balance
    }

    /// Whether the account can hold what the operation would leave in it:
    /// what `deposit` and `withdraw` ask of their callers.
    pub fn has_room_for(&self, kind: TransactionKind, amount: i32) -> (b: bool)
        ensures
            b == transaction_fits(self@.balance, kind, amount as int),
    {
        proof {
            use_type_invariant(self);
        }
        let balance: i64 = self.balance as i64;
        let unit: i64 = MINOR_PER_MAJOR as i64;
        assert(unit == 100);
        let change: i64 = (amount as i64) * unit;
        let ceiling: i64 = i32::MAX as i64;
        match kind {
            TransactionKind::Deposit => amount < 1 || balance + change <= ceiling,
            TransactionKind::Withdraw => amount > self.balance / MINOR_PER_MAJOR || balance
                - change <= ceiling,
        }
    }

    /// Adds `amount` major units to the balance, or refuses an amount below
    /// one and leaves the account as it was.
    pub fn deposit(&mut self, amount: i32) -> (r: Result<(), ValidationError>)
        requires
            transaction_fits(old(self)@.balance, TransactionKind::Deposit, amount as int),
        ensures
            final(self)@.number == old(self)@.number,
            final(self)@.balance >= 0,
            match deposit_outcome(old(self)@.balance, amount as int) {
                Ok(b) => r is Ok && final(self)@.balance == b,
                Err(e) => r == Err::<(), ValidationError>(e) && final(self)@ == old(self)@,
            },
    {
        proof {
            use_type_invariant(&*self);
        }
        if amount < 1 {
            Err(ValidationError::InvalidAmount)
        } else {
            self.balance = self.balance + amount * MINOR_PER_MAJOR;
            Ok(())
        }
    }

    /// Takes `amount` major units from the balance, or refuses an amount
    /// above the whole major units that the balance holds and leaves the
    /// account as it was.
    pub fn withdraw(&mut self, amount: i32) -> (r: Result<(), ValidationError>)
        requires
            transaction_fits(old(self)@.balance, TransactionKind::Withdraw, amount as int),
        ensures
            final(self)@.number == old(self)@.number,
            final(self)@.balance >= 0,
            match withdraw_outcome(old(self)@.balance, amount as int) {
                Ok(b) => r is Ok && final(self)@.balance == b,
                Err(e) => r == Err::<(), ValidationError>(e) && final(self)@ == old(self)@,
            },
    {
        proof {
            use_type_invariant(&*self);
        }
        if amount > self.balance / MINOR_PER_MAJOR {
            Err(ValidationError::InsufficientFunds)
        } else {
            self.balance = self.balance - amount * MINOR_PER_MAJOR;
            Ok(())
        }
    }
}

impl Clone for Account {
    fn clone(&self) -> (a: Account)
        ensures
            a == *self,
    {
        proof {
            use_type_invariant(self);
        }
        Account { account_number: self.account_number, balance: self.balance }
    }
}

/// One operation in a history of an account: its kind and its amount in major
/// units.
pub struct Operation {
    pub kind: TransactionKind,
    pub amount: int,
}

/// The balance that a history of operations leaves, starting from `balance`.
/// A refused operation leaves the balance as it was.
pub open spec fn balance_after(balance: int, history: Seq<Operation>) -> int
    decreases history.len(),
{
    if history.len() == 0 {
        balance
    } else {
        let before = balance_after(balance, history.drop_last());
        match transaction_outcome(before, history.last().kind, history.last().amount) {
            Ok(after) => after,
            Err(_) => before,
        }
    }
}

/// No history of deposits and withdrawals, whatever its amounts, takes a
/// balance below zero that was not below zero before.
pub proof fn lemma_balance_never_negative(balance: int, history: Seq<Operation>)
    requires
        balance >= 0,
    ensures
        balance_after(balance, history) >= 0,
    decreases history.len(),
{
    if history.len() > 0 {
        lemma_balance_never_negative(balance, history.drop_last());
    }
}

/// A deposit of zero or less is refused as an invalid amount, whatever the
/// balance.
pub proof fn lemma_deposit_below_one_refused(balance: int, amount: int)
    requires
        amount <= 0,
    ensures
        deposit_outcome(balance, amount) == Err::<int, ValidationError>(
            ValidationError::InvalidAmount,
        ),
{
}

/// A withdrawal is refused for want of funds exactly when its amount in minor
/// units exceeds the balance; otherwise it takes exactly that many minor
/// units. So the ceiling in whole major units refuses no amount that the
/// balance could pay.
pub proof fn lemma_withdraw_limit(balance: int, amount: int)
    ensures
        amount * MINOR_PER_MAJOR > balance ==> withdraw_outcome(balance, amount) == Err::<
            int,
            ValidationError,
        >(ValidationError::InsufficientFunds),
        amount * MINOR_PER_MAJOR <= balance ==> withdraw_outcome(balance, amount) == Ok::<
            int,
            ValidationError,
        >(balance - amount * MINOR_PER_MAJOR),
{
}

} // verus!
