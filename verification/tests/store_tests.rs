use account_ledger::account::Account;
use account_ledger::error::LedgerError;
use account_ledger::store::{AccountRecord, Snapshot, Store, UserRecord};
use account_ledger::user::{Credentials, User};

fn record(name: &str, password: &str, account_number: u128, balance: i32) -> UserRecord {
    UserRecord {
        name: name.to_string(),
        password: password.to_string(),
        account: AccountRecord { account_number, balance },
    }
}

fn stored_user(name: &str, secret: &str, number: u128, balance: i32) -> User {
    User::from_parts(Credentials::new(name, secret), Account::restore(number, balance).unwrap())
}

fn three_users() -> Store {
    Store::from_users(vec![
        stored_user("alice", "secret", 1, 100),
        stored_user("bob", "hunter2", 2, 200),
        stored_user("alice", "secret", 3, 300),
    ])
}

#[test]
fn new_store_is_empty() {
    let store = Store::new();
    assert_eq!(store.len(), 0);
    assert!(store.users().is_empty());
    assert!(store.to_records().is_empty());
}

#[test]
fn store_from_users_keeps_their_order() {
    let store = three_users();
    assert_eq!(store.len(), 3);
    assert_eq!(store.get(0).account().account_number(), 1);
    assert_eq!(store.get(1).account().account_number(), 2);
    assert_eq!(store.get(2).account().account_number(), 3);
    assert_eq!(store.users().len(), 3);
    assert_eq!(store.users()[1].credentials().name(), "bob");
}

#[test]
fn position_is_that_of_the_first_match() {
    let store = three_users();
    assert_eq!(store.position(&Credentials::new("alice", "secret")), Some(0));
    assert_eq!(store.position(&Credentials::new("bob", "hunter2")), Some(1));
}

#[test]
fn position_of_unknown_credentials_is_none() {
    let store = three_users();
    assert_eq!(store.position(&Credentials::new("carol", "secret")), None);
    assert_eq!(store.position(&Credentials::new("alice", "hunter2")), None);
    assert_eq!(store.position(&Credentials::new("Alice", "secret")), None);
    assert_eq!(Store::new().position(&Credentials::new("alice", "secret")), None);
}

#[test]
fn push_puts_the_user_last() {
    let mut store = three_users();
    store.push(stored_user("dave", "pw", 4, 0));
    assert_eq!(store.len(), 4);
    assert_eq!(store.get(3).credentials().name(), "dave");
    assert_eq!(store.get(0).account().account_number(), 1);
    assert_eq!(store.position(&Credentials::new("dave", "pw")), Some(3));
}

#[test]
fn replace_changes_one_place_only() {
    let mut store = three_users();
    store.replace(1, stored_user("bob", "hunter2", 2, 950));
    assert_eq!(store.len(), 3);
    assert_eq!(store.get(0).account().balance(), 100);
    assert_eq!(store.get(1).account().balance(), 950);
    assert_eq!(store.get(2).account().balance(), 300);
}

#[test]
fn load_of_an_absent_medium_is_an_empty_store() {
    let store = Store::load(Snapshot::Absent).unwrap();
    assert_eq!(store.len(), 0);
}

#[test]
fn load_of_an_unreadable_medium_is_an_io_error() {
    assert_eq!(Store::load(Snapshot::Unreadable).unwrap_err(), LedgerError::Io);
}

#[test]
fn load_of_malformed_content_is_a_parse_error() {
    assert_eq!(Store::load(Snapshot::Malformed).unwrap_err(), LedgerError::Parse);
}

#[test]
fn load_of_no_records_is_an_empty_store() {
    let store = Store::load(Snapshot::Records(Vec::new())).unwrap();
    assert_eq!(store.len(), 0);
}

#[test]
fn load_of_records_keeps_order_and_values() {
    let records = vec![
        record("alice", "secret", 11, 3000),
        record("bob", "hunter2", 12, 0),
        record("alice", "other", 13, i32::MAX),
    ];
    let store = Store::load(Snapshot::Records(records)).unwrap();
    assert_eq!(store.len(), 3);
    assert_eq!(store.get(0).credentials().name(), "alice");
    assert_eq!(store.get(0).credentials().secret(), "secret");
    assert_eq!(store.get(0).account().account_number(), 11);
    assert_eq!(store.get(0).account().balance(), 3000);
    assert_eq!(store.get(1).credentials().name(), "bob");
    assert_eq!(store.get(1).credentials().secret(), "hunter2");
    assert_eq!(store.get(1).account().account_number(), 12);
    assert_eq!(store.get(1).account().balance(), 0);
    assert_eq!(store.get(2).credentials().secret(), "other");
    assert_eq!(store.get(2).account().account_number(), 13);
    assert_eq!(store.get(2).account().balance(), i32::MAX);
}

#[test]
fn load_of_a_negative_balance_is_a_parse_error() {
    let records = vec![record("alice", "secret", 11, 3000), record("bob", "hunter2", 12, -1)];
    assert_eq!(Store::from_records(records).unwrap_err(), LedgerError::Parse);
    let records = vec![record("bob", "hunter2", 12, -100), record("alice", "secret", 11, 3000)];
    assert_eq!(Store::load(Snapshot::Records(records)).unwrap_err(), LedgerError::Parse);
}

#[test]
fn records_of_a_store_keep_order_and_values() {
    let records = three_users().to_records();
    assert_eq!(records.len(), 3);
    assert_eq!(records[0].name, "alice");
    assert_eq!(records[0].password, "secret");
    assert_eq!(records[0].account.account_number, 1);
    assert_eq!(records[0].account.balance, 100);
    assert_eq!(records[1].name, "bob");
    assert_eq!(records[1].password, "hunter2");
    assert_eq!(records[1].account.account_number, 2);
    assert_eq!(records[1].account.balance, 200);
    assert_eq!(records[2].name, "alice");
    assert_eq!(records[2].account.account_number, 3);
    assert_eq!(records[2].account.balance, 300);
}

#[test]
fn saving_and_loading_gives_the_same_store() {
    let store = three_users();
    let again = Store::load(Snapshot::Records(store.to_records())).unwrap();
    assert_eq!(again.len(), store.len());
    for i in 0..store.len() {
        assert_eq!(again.get(i).credentials().name(), store.get(i).credentials().name());
        assert_eq!(again.get(i).credentials().secret(), store.get(i).credentials().secret());
        assert_eq!(
            again.get(i).account().account_number(),
            store.get(i).account().account_number()
        );
        assert_eq!(again.get(i).account().balance(), store.get(i).account().balance());
    }
}

#[test]
fn loading_and_saving_gives_the_same_records() {
    let records = vec![record("zoë", "pässword", u128::MAX, 1), record("", "", 0, 0)];
    let again = Store::from_records(records).unwrap().to_records();
    assert_eq!(again.len(), 2);
    assert_eq!(again[0].name, "zoë");
    assert_eq!(again[0].password, "pässword");
    assert_eq!(again[0].account.account_number, u128::MAX);
    assert_eq!(again[0].account.balance, 1);
    assert_eq!(again[1].name, "");
    assert_eq!(again[1].password, "");
    assert_eq!(again[1].account.account_number, 0);
    assert_eq!(again[1].account.balance, 0);
}
