use account_ledger::account::{Account, TransactionKind, ValidationError};
use account_ledger::user::{Credentials, User};

#[test]
fn credentials_keep_name_and_secret() {
    let credentials = Credentials::new("alice", "secret");
    assert_eq!(credentials.name(), "alice");
    assert_eq!(credentials.secret(), "secret");
}

#[test]
fn credentials_are_equal_when_both_parts_agree() {
    assert!(Credentials::new("alice", "secret") == Credentials::new("alice", "secret"));
    assert!(Credentials::new("alice", "secret") != Credentials::new("alice", "Secret"));
    assert!(Credentials::new("alice", "secret") != Credentials::new("Alice", "secret"));
    assert!(Credentials::new("alice", "secret") != Credentials::new("secret", "alice"));
    assert!(Credentials::new("", "") == Credentials::new("", ""));
}

#[test]
fn clone_of_credentials_is_equal() {
    let credentials = Credentials::new("zoë", "pässword");
    let copy = credentials.clone();
    assert!(copy == credentials);
    assert_eq!(copy.name(), "zoë");
    assert_eq!(copy.secret(), "pässword");
}

#[test]
fn new_user_has_an_empty_account() {
    let user = User::new("alice", "secret");
    assert_eq!(user.credentials().name(), "alice");
    assert_eq!(user.credentials().secret(), "secret");
    assert_eq!(user.account().balance(), 0);
}

#[test]
fn new_users_get_accounts_of_their_own() {
    let first = User::new("alice", "secret");
    let second = User::new("alice", "secret");
    assert_ne!(first.account().account_number(), second.account().account_number());
}

#[test]
fn user_from_parts_keeps_them() {
    let account = Account::restore(42, 1500).unwrap();
    let user = User::from_parts(Credentials::new("bob", "pw"), account);
    assert_eq!(user.credentials().name(), "bob");
    assert_eq!(user.credentials().secret(), "pw");
    assert_eq!(user.account().account_number(), 42);
    assert_eq!(user.account().balance(), 1500);
}

#[test]
fn users_are_equal_by_credentials_alone() {
    let rich = User::from_parts(Credentials::new("bob", "pw"), Account::restore(1, 900).unwrap());
    let poor = User::from_parts(Credentials::new("bob", "pw"), Account::restore(2, 0).unwrap());
    let other = User::from_parts(Credentials::new("bob", "pW"), Account::restore(1, 900).unwrap());
    assert!(rich == poor);
    assert!(rich != other);
}

#[test]
fn has_credentials_is_exact() {
    let user = User::new("alice", "secret");
    assert!(user.has_credentials(&Credentials::new("alice", "secret")));
    assert!(!user.has_credentials(&Credentials::new("alice", "secret ")));
    assert!(!user.has_credentials(&Credentials::new("ALICE", "secret")));
    assert!(!user.has_credentials(&Credentials::new("alice", "")));
}

#[test]
fn user_deposit_and_withdraw_reach_the_account() {
    let mut user = User::new("alice", "secret");
    let number = user.account().account_number();
    assert_eq!(user.deposit(12), Ok(()));
    assert_eq!(user.account().balance(), 1200);
    assert_eq!(user.withdraw(2), Ok(()));
    assert_eq!(user.account().balance(), 1000);
    assert_eq!(user.withdraw(11), Err(ValidationError::InsufficientFunds));
    assert_eq!(user.deposit(0), Err(ValidationError::InvalidAmount));
    assert_eq!(user.account().balance(), 1000);
    assert_eq!(user.account().account_number(), number);
    assert_eq!(user.credentials().name(), "alice");
}

#[test]
fn user_apply_dispatches_on_the_kind() {
    let mut user = User::new("alice", "secret");
    assert!(user.has_room_for(TransactionKind::Deposit, 7));
    assert_eq!(user.apply(TransactionKind::Deposit, 7), Ok(()));
    assert_eq!(user.account().balance(), 700);
    assert_eq!(user.apply(TransactionKind::Withdraw, 3), Ok(()));
    assert_eq!(user.account().balance(), 400);
    assert_eq!(user.apply(TransactionKind::Withdraw, 5), Err(ValidationError::InsufficientFunds));
    assert_eq!(user.apply(TransactionKind::Deposit, -5), Err(ValidationError::InvalidAmount));
    assert_eq!(user.account().balance(), 400);
}

#[test]
fn clone_of_a_user_is_the_same_user() {
    let mut user = User::new("alice", "secret");
    assert_eq!(user.deposit(3), Ok(()));
    let copy = user.clone();
    assert!(copy == user);
    assert_eq!(copy.account().account_number(), user.account().account_number());
    assert_eq!(copy.account().balance(), 300);
}
