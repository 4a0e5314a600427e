//! The ordered collection of all users, and the plain records in which it is
//! kept on the backing medium.

use crate::account::{Account, AccountModel};
use crate::error::LedgerError;
use crate::user::{Credentials, CredentialsModel, User, UserModel};
use vstd::prelude::*;

verus! {

/// Whether `i` is the place of the first of `users` known by `credentials`.
pub open spec fn is_first_match(
    users: Seq<UserModel>,
    credentials: CredentialsModel,
    i: int,
) -> bool {
    &&& 0 <= i < users.len()
    &&& users[i].credentials == credentials
    &&& forall|j: int| 0 <= j < i ==> users[j].credentials != credentials
}

/// The place of the first of `users` known by `credentials`, if there is one.
pub open spec fn first_match(users: Seq<UserModel>, credentials: CredentialsModel) -> Option<int> {
    if exists|i: int| is_first_match(users, credentials, i) {
        Some(choose|i: int| is_first_match(users, credentials, i))
    } else {
        None
    }
}

/// A place that is a first match is the first match.
pub proof fn lemma_first_match_is(users: Seq<UserModel>, credentials: CredentialsModel, i: int)
    requires
        is_first_match(users, credentials, i),
    ensures
        first_match(users, credentials) == Some(i),
{
    let k = choose|k: int| is_first_match(users, credentials, k);
    assert(is_first_match(users, credentials, k));
    if k < i {
        assert(users[k].credentials != credentials);
    }
    if i < k {
        assert(users[i].credentials != credentials);
    }
}

/// Where some user is known by the credentials, there is a first one, at or
/// before that user's place.
pub proof fn lemma_first_match_exists(
    users: Seq<UserModel>,
    credentials: CredentialsModel,
    k: int,
)
    requires
        0 <= k < users.len(),
        users[k].credentials == credentials,
    ensures
        first_match(users, credentials) is Some,
        first_match(users, credentials)->0 <= k,
        is_first_match(users, credentials, first_match(users, credentials)->0),
    decreases k,
{
    if forall|j: int| 0 <= j < k ==> users[j].credentials != credentials {
        lemma_first_match_is(users, credentials, k);
    } else {
        let j = choose|j: int| 0 <= j < k && users[j].credentials == credentials;
        lemma_first_match_exists(users, credentials, j);
    }
}

/// Where no user is known by the credentials, there is no first match.
pub proof fn lemma_first_match_none(users: Seq<UserModel>, credentials: CredentialsModel)
    requires
        forall|j: int| 0 <= j < users.len() ==> users[j].credentials != credentials,
    ensures
        first_match(users, credentials) is None,
{
    assert forall|i: int| !is_first_match(users, credentials, i) by {
        if 0 <= i < users.len() {
            assert(users[i].credentials != credentials);
        }
    }
}

/// The models of a sequence of users, in the same order.
pub open spec fn models(users: Seq<User>) -> Seq<UserModel> {
    Seq::new(users.len(), |i: int| users[i]@)
}

/// An account as the backing medium keeps it.
#[derive(Debug)]
pub struct AccountRecord {
    pub account_number: u128,
    pub balance: i32,
}

/// A user as the backing medium keeps it: plain values, of which nothing is
/// known until the store has taken them in.
#[derive(Debug)]
pub struct UserRecord {
    pub name: String,
    pub password: String,
    pub account: AccountRecord,
}

/// The user that a record describes.
pub open spec fn record_model(record: UserRecord) -> UserModel {
    UserModel {
        credentials: CredentialsModel { name: record.name@, secret: record.password@ },
        account: AccountModel {
            number: record.account.account_number,
            balance: record.account.balance as int,
        },
    }
}

/// The users that a sequence of records describes, in the same order.
pub open spec fn record_models(records: Seq<UserRecord>) -> Seq<UserModel> {
    Seq::new(records.len(), |i: int| record_model(records[i]))
}

/// Whether every record describes a user that can exist: no balance is
/// negative.
pub open spec fn records_are_valid(records: Seq<UserRecord>) -> bool {
    forall|i: int| 0 <= i < records.len() ==> (#[trigger] records[i]).account.balance >= 0
}

/// What taking in a sequence of records gives: the users they describe, or a
/// parse error where some record is not valid.
pub open spec fn load_outcome(records: Seq<UserRecord>) -> Result<Seq<UserModel>, LedgerError> {
    if records_are_valid(records) {
        Ok(record_models(records))
    } else {
        Err(LedgerError::Parse)
    }
}

/// What a reader found on the backing medium.
#[derive(Debug)]
pub enum Snapshot {
    /// The medium is not there yet, or holds nothing.
    Absent,
    /// The medium could not be opened or read.
    Unreadable,
    /// The medium holds something that is not a sequence of records.
    Malformed,
    /// The medium holds these records, in this order.
    Records(Vec<UserRecord>),
}

/// What loading from a snapshot gives: no users on first use, the users that
/// the records describe, or the error that fits what the reader found.
pub open spec fn snapshot_outcome(snapshot: Snapshot) -> Result<Seq<UserModel>, LedgerError> {
    match snapshot {
        Snapshot::Absent => Ok(Seq::empty()),
        Snapshot::Unreadable => Err(LedgerError::Io),
        Snapshot::Malformed => Err(LedgerError::Parse),
        Snapshot::Records(records) => load_outcome(records@),
    }
}

/// The ordered collection of users. New users go to the end; nothing is ever
/// taken out; two users may have the same credentials.
#[derive(Debug)]
pub struct Store {
    users: Vec<User>,
}

impl View for Store {
    type V = Seq<UserModel>;

    closed spec fn view(&self) -> Seq<UserModel> {
        models(self.users@)
    }
}

impl Store {
    /// The store with no users.
    pub fn new() -> (s: Store)
        ensures
            s@ == Seq::<UserModel>::empty(),
    {
        Store { users: Vec::new() }
    }

    /// The store of the given users, in their order.
    pub fn from_users(users: Vec<User>) -> (s: Store)
        ensures
            s@ == models(users@),
    {
        Store { users }
    }

    /// The store that a snapshot of the backing medium gives.
    pub fn load(snapshot: Snapshot) -> (r: Result<Store, LedgerError>)
        ensures
            match snapshot_outcome(snapshot) {
                Ok(users) => r is Ok && r->Ok_0@ == users,
                Err(e) => r is Err && r->Err_0 == e,
            },
    {
        match snapshot {
            Snapshot::Absent => Ok(Store::new()),
            Snapshot::Unreadable => Err(LedgerError::Io),
            Snapshot::Malformed => Err(LedgerError::Parse),
            Snapshot::Records(records) => Store::from_records(records),
        }
    }

    /// The store of the users that the records describe, in their order, or a
    /// parse error where some record holds a negative balance.
    pub fn from_records(records: Vec<UserRecord>) -> (r: Result<Store, LedgerError>)
        ensures
            match load_outcome(records@) {
                Ok(users) => r is Ok && r->Ok_0@ == users,
                Err(e) => r is Err && r->Err_0 == e,
            },
    {
        let mut users: Vec<User> = Vec::new();
        let mut i: usize = 0;
        while i < records.len()
            invariant
                i <= records.len(),
                users@.len() == i,
                forall|j: int| 0 <= j < i ==> (#[trigger] records@[j]).account.balance >= 0,
                forall|j: int| 0 <= j < i ==> (#[trigger] users@[j])@ == record_model(records@[j]),
            decreases records.len() - i,
        {
            let record = &records[i];
            match Account::restore(record.account.account_number, record.account.balance) {
                None => {
                    return Err(LedgerError::Parse);
                },
                Some(account) => {
                    let credentials = Credentials::new(
                        record.name.as_str(),
                        record.password.as_str(),
                    );
                    users.push(User::from_parts(credentials, account));
                },
            }
            i += 1;
        }
        assert(models(users@) =~= record_models(records@));
        Ok(Store { users })
    }

    /// The records to keep on the backing medium: one for each user, in store
    /// order. Taking them in again gives the same store.
    pub fn to_records(&self) -> (records: Vec<UserRecord>)
        ensures
            load_outcome(records@) == Ok::<Seq<UserModel>, LedgerError>(self@),
    {
        let mut records: Vec<UserRecord> = Vec::new();
        let mut i: usize = 0;
        while i < self.users.len()
            invariant
                i <= self.users.len(),
                records@.len() == i,
                forall|j: int| 0 <= j < i ==> (#[trigger] records@[j]).account.balance >= 0,
                forall|j: int| 0 <= j < i ==> record_model(#[trigger] records@[j]) == self@[j],
            decreases self.users.len() - i,
        {
            let user = &self.users[i];
            records.push(
                UserRecord {
                    name: user.credentials().name().to_owned(),
                    password: user.credentials().secret().to_owned(),
                    account: AccountRecord {
                        account_number: user.account().account_number(),
                        balance: user.account().balance(),
                    },
                },
            );
            i += 1;
        }
        assert(record_models(records@) =~= self@);
        records
    }

    /// The users, in store order.
    pub fn users(&self) -> (users: &Vec<User>)
        ensures
            models(users@) == self@,
    {
        &self.users
    }

    /// How many users the store holds.
    pub fn len(&self) -> (n: usize)
        ensures
            n == self@.len(),
    {
        self.users.len()
    }

    /// The user at the given place.
    pub fn get(&self, index: usize) -> (user: &User)
        requires
            index < self@.len(),
        ensures
            user@ == self@[index as int],
    {
        &self.users[index]
    }

    /// The place of the first user known by the credentials, if there is one.
    pub fn position(&self, credentials: &Credentials) -> (r: Option<usize>)
        ensures
            match r {
                Some(i) => first_match(self@, credentials@) == Some(i as int),
                None => first_match(self@, credentials@) is None,
            },
    {
        let mut i: usize = 0;
        while i < self.users.len()
            invariant
                i <= self.users.len(),
                forall|j: int| 0 <= j < i ==> self@[j].credentials != credentials@,
            decreases self.users.len() - i,
        {
            if self.users[i].has_credentials(credentials) {
                proof {
                    lemma_first_match_is(self@, credentials@, i as int);
                }
                return Some(i);
            }
            i += 1;
        }
        proof {
            lemma_first_match_none(self@, credentials@);
        }
        None
    }

    /// Puts the user at the end of the store.
    pub fn push(&mut self, user: User)
        ensures
            final(self)@ == old(self)@.push(user@),
    {
        self.users.push(user);
    }

    /// Puts the user in the place of the one at `index`.
    pub fn replace(&mut self, index: usize, user: User)
        requires
            index < old(self)@.len(),
        ensures
            final(self)@ == old(self)@.update(index as int, user@),
    {
        self.users[index] = user;
    }
}

} // verus!
