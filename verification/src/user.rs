//! Credentials and the users they identify.

use crate::account::{
    transaction_fits, transaction_outcome, Account, AccountModel, TransactionKind,
    ValidationError,
};
use crate::identifier::is_random_identifier;
use vstd::prelude::*;
use vstd::std_specs::cmp::PartialEqSpecImpl;

verus! {

/// A credential pair as two sequences of characters.
pub struct CredentialsModel {
    pub name: Seq<char>,
    pub secret: Seq<char>,
}

/// What a user is, mathematically: the credential pair and the account.
pub struct UserModel {
    pub credentials: CredentialsModel,
    pub account: AccountModel,
}

/// The pair of name and secret by which a user is known. Two pairs are equal
/// when both parts agree, character for character.
#[derive(Debug)]
pub struct Credentials {
    name: String,
    secret: String,
}

impl View for Credentials {
    type V = CredentialsModel;

    closed spec fn view(&self) -> CredentialsModel {
        CredentialsModel { name: self.name@, secret: self.secret@ }
    }
}

impl Credentials {
    /// The pair of the given name and secret.
    pub fn new(name: &str, secret: &str) -> (c: Credentials)
        ensures
            c@ == (CredentialsModel { name: name@, secret: secret@ }),
    {
        Credentials { name: name.to_owned(), secret: secret.to_owned() }
    }

    /// The name.
    pub fn name(&self) -> (s: &str)
        ensures
            s@ == self@.name,
    {
        self.name.as_str()
    }

    /// The secret.
    pub fn secret(&self) -> (s: &str)
        ensures
            s@ == self@.secret,
    {
        self.secret.as_str()
    }
}

impl Clone for Credentials {
    fn clone(&self) -> (c: Credentials)
        ensures
            c == *self,
    {
        Credentials { name: self.name.clone(), secret: self.secret.clone() }
    }
}

impl PartialEq for Credentials {
    fn eq(&self, other: &Credentials) -> (b: bool) {
        self.name == other.name && self.secret == other.secret
    }
}

impl PartialEqSpecImpl for Credentials {
    open spec fn obeys_eq_spec() -> bool {
        true
    }

    open spec fn eq_spec(&self, other: &Credentials) -> bool {
        self@ == other@
    }
}

/// A user: the credentials and the account that they own. Who a user is
/// depends on the credentials alone: `==` compares them and nothing else.
#[derive(Debug)]
pub struct User {
    credentials: Credentials,
    account: Account,
}

impl View for User {
    type V = UserModel;

    closed spec fn view(&self) -> UserModel {
        UserModel { credentials: self.credentials@, account: self.account@ }
    }
}

impl User {
    /// A new user with the given credentials and a new, empty account.
    pub fn new(name: &str, secret: &str) -> (u: User)
        ensures
            u@.credentials == (CredentialsModel { name: name@, secret: secret@ }),
            u@.account.balance == 0,
            is_random_identifier(u@.account.number),
    {
        User { credentials: Credentials::new(name, secret), account: Account::new() }
    }

    /// The user made of the given credentials and account.
    pub fn from_parts(credentials: Credentials, account: Account) -> (u: User)
        ensures
            u@ == (UserModel { credentials: credentials@, account: account@ }),
    {
        User { credentials, account }
    }

    /// The credentials.
    pub fn credentials(&self) -> (c: &Credentials)
        ensures
            c@ == self@.credentials,
    {
        &self.credentials
    }

    /// The account.
    pub fn account(&self) -> (a: &Account)
        ensures
            a@ == self@.account,
    {
        &self.account
    }

    /// Whether the user is known by the given credentials.
    pub fn has_credentials(&self, credentials: &Credentials) -> (b: bool)
        ensures
            b == (self@.credentials == credentials@),
    {
        self.credentials == *credentials
    }

    /// Whether the user's account can hold what the operation would leave in
    /// it; see `Account::has_room_for`.
    pub fn has_room_for(&self, kind: TransactionKind, amount: i32) -> (b: bool)
        ensures
            b == transaction_fits(self@.account.balance, kind, amount as int),
    {
        self.account.has_room_for(kind, amount)
    }

    /// Applies the operation to the user's account.
    pub fn apply(&mut self, kind: TransactionKind, amount: i32) -> (r: Result<
        (),
        ValidationError,
    >)
        requires
            transaction_fits(old(self)@.account.balance, kind, amount as int),
        ensures
            transaction_applied(*old(self), kind, amount as int, *final(self), r),
    {
        match kind {
            TransactionKind::Deposit => self.deposit(amount),
            TransactionKind::Withdraw => self.withdraw(amount),
        }
    }

    /// Deposits into the user's account; see `Account::deposit`.
    pub fn deposit(&mut self, amount: i32) -> (r: Result<(), ValidationError>)
        requires
            transaction_fits(old(self)@.account.balance, TransactionKind::Deposit, amount as int),
        ensures
            transaction_applied(*old(self), TransactionKind::Deposit, amount as int, *final(self), r),
    {
        self.account.deposit(amount)
    }

    /// Withdraws from the user's account; see `Account::withdraw`.
    pub fn withdraw(&mut self, amount: i32) -> (r: Result<(), ValidationError>)
        requires
            transaction_fits(old(self)@.account.balance, TransactionKind::Withdraw, amount as int),
        ensures
            transaction_applied(*old(self), TransactionKind::Withdraw, amount as int, *final(self), r),
    {
        self.account.withdraw(amount)
    }
}

/// What an operation on a user's account does: on success the balance is the
/// one the operation gives and all else is as before; on refusal the user is
/// as before and the refusal is reported.
pub open spec fn transaction_applied(
    before: User,
    kind: TransactionKind,
    amount: int,
    after: User,
    r: Result<(), ValidationError>,
) -> bool {
    match transaction_outcome(before@.account.balance, kind, amount) {
        Ok(balance) => r is Ok && after@ == (UserModel {
            account: AccountModel { balance, ..before@.account },
            ..before@
        }),
        Err(e) => r == Err::<(), ValidationError>(e) && after@ == before@,
    }
}

impl Clone for User {
    fn clone(&self) -> (u: User)
        ensures
            u == *self,
    {
        User { credentials: self.credentials.clone(), account: self.account.clone() }
    }
}

impl PartialEq for User {
    fn eq(&self, other: &User) -> (b: bool) {
        self.credentials == other.credentials
    }
}

impl PartialEqSpecImpl for User {
    open spec fn obeys_eq_spec() -> bool {
        true
    }

    open spec fn eq_spec(&self, other: &User) -> bool {
        self@.credentials == other@.credentials
    }
}

} // verus!
