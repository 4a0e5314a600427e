//! The service: signing up, logging in, and applying a transaction to the
//! stored record of a user.
//!
//! Every entry point takes what the caller read from the backing medium and
//! gives back what the caller is to write there. A user that `sign_up` or
//! `login` returned is the caller's handle on the session; to log out is to
//! drop it.
//!
//! A transaction works on the handle first and on the store second. The plain
//! form puts the changed handle in the place of the stored record, whatever
//! that record holds by then; a handle that is out of date so overwrites what
//! others did in between. The `_if_unchanged` form refuses such a handle with
//! `LedgerError::Conflict`. Either form is only as good as the caller's hold
//! on the medium between reading the snapshot and writing the store back.

use crate::account::{transaction_fits, transaction_outcome, AccountModel, TransactionKind};
use crate::error::LedgerError;
use crate::identifier::is_random_identifier;
use crate::store::{
    first_match, is_first_match, lemma_first_match_exists, lemma_first_match_is,
    lemma_first_match_none, snapshot_outcome, Snapshot, Store,
};
use crate::user::{Credentials, CredentialsModel, User, UserModel};
use vstd::prelude::*;

verus! {

/// The first of `users` known by the credentials, or `NotFound`.
pub open spec fn found(users: Seq<UserModel>, credentials: CredentialsModel) -> Result<
    UserModel,
    LedgerError,
> {
    match first_match(users, credentials) {
        Some(i) => Ok(users[i]),
        None => Err(LedgerError::NotFound),
    }
}

/// What logging in gives: the first stored user known by the credentials, or
/// the load error where the store cannot be had.
pub open spec fn login_outcome(snapshot: Snapshot, credentials: CredentialsModel) -> Result<
    UserModel,
    LedgerError,
> {
    match snapshot_outcome(snapshot) {
        Err(e) => Err(e),
        Ok(users) => found(users, credentials),
    }
}

/// The user after the operation on its account, or the account's refusal.
pub open spec fn prepared(user: UserModel, kind: TransactionKind, amount: int) -> Result<
    UserModel,
    LedgerError,
> {
    match transaction_outcome(user.account.balance, kind, amount) {
        Ok(balance) => Ok(UserModel { account: AccountModel { balance, ..user.account }, ..user }),
        Err(e) => Err(LedgerError::Validation(e)),
    }
}

/// `users` after `updated` has taken the place of the first of them with its
/// credentials, or `NotFound` where none has them.
pub open spec fn replaced(users: Seq<UserModel>, updated: UserModel) -> Result<
    Seq<UserModel>,
    LedgerError,
> {
    match first_match(users, updated.credentials) {
        Some(i) => Ok(users.update(i, updated)),
        None => Err(LedgerError::NotFound),
    }
}

/// As `replaced`, but only where the account of the stored user is still the
/// one that `seen` shows; `Conflict` where it is not.
pub open spec fn replaced_if_unchanged(
    users: Seq<UserModel>,
    seen: UserModel,
    updated: UserModel,
) -> Result<Seq<UserModel>, LedgerError> {
    match first_match(users, updated.credentials) {
        Some(i) => if users[i].account == seen.account {
            Ok(users.update(i, updated))
        } else {
            Err(LedgerError::Conflict)
        },
        None => Err(LedgerError::NotFound),
    }
}

/// What the second step of a transaction gives: the stored users after the
/// replacement, or the load error where the store cannot be had.
pub open spec fn committed(snapshot: Snapshot, updated: UserModel) -> Result<
    Seq<UserModel>,
    LedgerError,
> {
    match snapshot_outcome(snapshot) {
        Err(e) => Err(e),
        Ok(users) => replaced(users, updated),
    }
}

/// As `committed`, with the replacement that refuses a handle out of date.
pub open spec fn committed_if_unchanged(
    snapshot: Snapshot,
    seen: UserModel,
    updated: UserModel,
) -> Result<Seq<UserModel>, LedgerError> {
    match snapshot_outcome(snapshot) {
        Err(e) => Err(e),
        Ok(users) => replaced_if_unchanged(users, seen, updated),
    }
}

/// The whole transaction: the operation on the handle first, whose refusal
/// comes before anything that the store could say; then the replacement in the
/// store. On success, the new handle and the stored users.
pub open spec fn transaction_result(
    snapshot: Snapshot,
    user: UserModel,
    kind: TransactionKind,
    amount: int,
) -> Result<(UserModel, Seq<UserModel>), LedgerError> {
    match prepared(user, kind, amount) {
        Err(e) => Err(e),
        Ok(updated) => match committed(snapshot, updated) {
            Err(e) => Err(e),
            Ok(users) => Ok((updated, users)),
        },
    }
}

/// As `transaction_result`, with the replacement that refuses a handle out of
/// date.
pub open spec fn transaction_result_if_unchanged(
    snapshot: Snapshot,
    user: UserModel,
    kind: TransactionKind,
    amount: int,
) -> Result<(UserModel, Seq<UserModel>), LedgerError> {
    match prepared(user, kind, amount) {
        Err(e) => Err(e),
        Ok(updated) => match committed_if_unchanged(snapshot, user, updated) {
            Err(e) => Err(e),
            Ok(users) => Ok((updated, users)),
        },
    }
}

/// Signs a new user up: a fresh account with nothing in it, put at the end of
/// the stored users, whether or not the credentials are already in use.
/// Returns the new user and the store to write back. Fails only where the
/// store cannot be had.
pub fn sign_up(snapshot: Snapshot, name: &str, secret: &str) -> (r: Result<
    (User, Store),
    LedgerError,
>)
    ensures
        match snapshot_outcome(snapshot) {
            Ok(users) => {
                &&& r is Ok
                &&& r->Ok_0.0@.credentials == (CredentialsModel { name: name@, secret: secret@ })
                &&& r->Ok_0.0@.account.balance == 0
                &&& is_random_identifier(r->Ok_0.0@.account.number)
                &&& r->Ok_0.1@ == users.push(r->Ok_0.0@)
            },
            Err(e) => r is Err && r->Err_0 == e,
        },
{
    match Store::load(snapshot) {
        Err(e) => Err(e),
        Ok(mut store) => {
            let user = User::new(name, secret);
            store.push(user.clone());
            Ok((user, store))
        },
    }
}

/// Logs in: the first stored user known by exactly these credentials.
pub fn login(snapshot: Snapshot, name: &str, secret: &str) -> (r: Result<User, LedgerError>)
    ensures
        match login_outcome(snapshot, CredentialsModel { name: name@, secret: secret@ }) {
            Ok(user) => r is Ok && r->Ok_0@ == user,
            Err(e) => r is Err && r->Err_0 == e,
        },
{
    match Store::load(snapshot) {
        Err(e) => Err(e),
        Ok(store) => {
            let credentials = Credentials::new(name, secret);
            match store.position(&credentials) {
                Some(i) => Ok(store.get(i).clone()),
                None => Err(LedgerError::NotFound),
            }
        },
    }
}

/// The first step of a transaction: the operation on a copy of the handle.
/// The store has no part in it.
pub fn prepare_transaction(user: &User, kind: TransactionKind, amount: i32) -> (r: Result<
    User,
    LedgerError,
>)
    requires
        transaction_fits(user@.account.balance, kind, amount as int),
    ensures
        match prepared(user@, kind, amount as int) {
            Ok(updated) => r is Ok && r->Ok_0@ == updated,
            Err(e) => r is Err && r->Err_0 == e,
        },
{
    let mut updated = user.clone();
    match updated.apply(kind, amount) {
        Ok(()) => Ok(updated),
        Err(e) => Err(LedgerError::Validation(e)),
    }
}

/// The second step of a transaction: `updated` takes the place of the first
/// stored user with its credentials. Returns the store to write back.
pub fn commit_transaction(snapshot: Snapshot, updated: &User) -> (r: Result<Store, LedgerError>)
    ensures
        match committed(snapshot, updated@) {
            Ok(users) => r is Ok && r->Ok_0@ == users,
            Err(e) => r is Err && r->Err_0 == e,
        },
{
    match Store::load(snapshot) {
        Err(e) => Err(e),
        Ok(mut store) => match store.position(updated.credentials()) {
            Some(i) => {
                store.replace(i, updated.clone());
                Ok(store)
            },
            None => Err(LedgerError::NotFound),
        },
    }
}

/// The second step of a transaction, for a store that others may have written
/// since the handle was taken: as `commit_transaction`, but where the stored
/// account is no longer the one that `seen` shows, nothing is replaced and
/// the answer is `Conflict`.
pub fn commit_transaction_if_unchanged(snapshot: Snapshot, seen: &User, updated: &User) -> (r:
    Result<Store, LedgerError>)
    ensures
        match committed_if_unchanged(snapshot, seen@, updated@) {
            Ok(users) => r is Ok && r->Ok_0@ == users,
            Err(e) => r is Err && r->Err_0 == e,
        },
{
    match Store::load(snapshot) {
        Err(e) => Err(e),
        Ok(mut store) => match store.position(updated.credentials()) {
            Some(i) => {
                let stored = store.get(i).account();
                if stored.account_number() == seen.account().account_number() && stored.balance()
                    == seen.account().balance() {
                    store.replace(i, updated.clone());
                    Ok(store)
                } else {
                    Err(LedgerError::Conflict)
                }
            },
            None => Err(LedgerError::NotFound),
        },
    }
}

/// Applies a deposit or a withdrawal on behalf of the user behind the handle.
/// Returns the new handle and the store to write back.
pub fn apply_transaction(
    snapshot: Snapshot,
    user: &User,
    kind: TransactionKind,
    amount: i32,
) -> (r: Result<(User, Store), LedgerError>)
    requires
        transaction_fits(user@.account.balance, kind, amount as int),
    ensures
        match transaction_result(snapshot, user@, kind, amount as int) {
            Ok((updated, users)) => r is Ok && r->Ok_0.0@ == updated && r->Ok_0.1@ == users,
            Err(e) => r is Err && r->Err_0 == e,
        },
{
    match prepare_transaction(user, kind, amount) {
        Err(e) => Err(e),
        Ok(updated) => match commit_transaction(snapshot, &updated) {
            Err(e) => Err(e),
            Ok(store) => Ok((updated, store)),
        },
    }
}

/// As `apply_transaction`, for a store that others may have written since the
/// handle was taken: a handle that no longer shows the stored account is
/// refused with `Conflict`.
pub fn apply_transaction_if_unchanged(
    snapshot: Snapshot,
    user: &User,
    kind: TransactionKind,
    amount: i32,
) -> (r: Result<(User, Store), LedgerError>)
    requires
        transaction_fits(user@.account.balance, kind, amount as int),
    ensures
        match transaction_result_if_unchanged(snapshot, user@, kind, amount as int) {
            Ok((updated, users)) => r is Ok && r->Ok_0.0@ == updated && r->Ok_0.1@ == users,
            Err(e) => r is Err && r->Err_0 == e,
        },
{
    match prepare_transaction(user, kind, amount) {
        Err(e) => Err(e),
        Ok(updated) => match commit_transaction_if_unchanged(snapshot, user, &updated) {
            Err(e) => Err(e),
            Ok(store) => Ok((updated, store)),
        },
    }
}

/// Looking a user up succeeds exactly when some stored user has the
/// credentials, and then gives the first of those in store order.
pub proof fn lemma_found_iff_known(users: Seq<UserModel>, credentials: CredentialsModel)
    ensures
        found(users, credentials) is Ok <==> exists|i: int|
            0 <= i < users.len() && (#[trigger] users[i]).credentials == credentials,
        found(users, credentials) is Err ==> found(users, credentials)->Err_0
            == LedgerError::NotFound,
        found(users, credentials) is Ok ==> exists|i: int|
            #[trigger] is_first_match(users, credentials, i) && found(users, credentials)->Ok_0
                == users[i],
{
    if exists|i: int| 0 <= i < users.len() && (#[trigger] users[i]).credentials == credentials {
        let k = choose|i: int|
            0 <= i < users.len() && (#[trigger] users[i]).credentials == credentials;
        lemma_first_match_exists(users, credentials, k);
    } else {
        lemma_first_match_none(users, credentials);
    }
    if first_match(users, credentials) is Some {
        assert(is_first_match(users, credentials, first_match(users, credentials)->0));
    }
}

/// A user put at the end of the store is found by its credentials, unless an
/// earlier user has the same: then that one is found, as before.
pub proof fn lemma_pushed_is_found(users: Seq<UserModel>, user: UserModel)
    ensures
        found(users, user.credentials) is Err ==> found(users.push(user), user.credentials)
            == Ok::<UserModel, LedgerError>(user),
        found(users, user.credentials) is Ok ==> found(users.push(user), user.credentials)
            == found(users, user.credentials),
{
    let after = users.push(user);
    lemma_found_iff_known(users, user.credentials);
    if first_match(users, user.credentials) is Some {
        let i = first_match(users, user.credentials)->0;
        assert(is_first_match(users, user.credentials, i));
        assert(is_first_match(after, user.credentials, i)) by {
            assert forall|j: int| 0 <= j < i implies after[j].credentials != user.credentials by {
                assert(after[j] == users[j]);
            }
        }
        lemma_first_match_is(after, user.credentials, i);
    } else {
        assert(is_first_match(after, user.credentials, users.len() as int)) by {
            assert forall|j: int| 0 <= j < users.len() implies after[j].credentials
                != user.credentials by {
                assert(after[j] == users[j]);
            }
        }
        lemma_first_match_is(after, user.credentials, users.len() as int);
    }
}

/// After a replacement, looking the credentials up gives the user that was
/// put in, and every other place of the store is as before.
pub proof fn lemma_replaced_is_found(users: Seq<UserModel>, updated: UserModel)
    requires
        replaced(users, updated) is Ok,
    ensures
        found(replaced(users, updated)->Ok_0, updated.credentials) == Ok::<
            UserModel,
            LedgerError,
        >(updated),
        replaced(users, updated)->Ok_0.len() == users.len(),
        forall|j: int|
            0 <= j < users.len() && first_match(users, updated.credentials) != Some(j)
                ==> #[trigger] replaced(users, updated)->Ok_0[j] == users[j],
{
    let i = first_match(users, updated.credentials)->0;
    assert(is_first_match(users, updated.credentials, i));
    let after = users.update(i, updated);
    assert(is_first_match(after, updated.credentials, i)) by {
        assert forall|j: int| 0 <= j < i implies after[j].credentials != updated.credentials by {
            assert(after[j] == users[j]);
        }
    }
    lemma_first_match_is(after, updated.credentials, i);
}

/// No update is lost to a handle out of date: where a transaction of the
/// `_if_unchanged` form succeeds, the stored user after it is the stored user
/// before it with the operation applied, and every other place of the store
/// is as before.
pub proof fn lemma_no_lost_update(
    snapshot: Snapshot,
    user: UserModel,
    kind: TransactionKind,
    amount: int,
)
    requires
        transaction_result_if_unchanged(snapshot, user, kind, amount) is Ok,
    ensures
        ({
            let before = snapshot_outcome(snapshot)->Ok_0;
            let after = transaction_result_if_unchanged(snapshot, user, kind, amount)->Ok_0.1;
            let place = first_match(before, user.credentials);
            &&& snapshot_outcome(snapshot) is Ok
            &&& place is Some
            &&& after.len() == before.len()
            &&& prepared(before[place->0], kind, amount) == Ok::<UserModel, LedgerError>(
                after[place->0],
            )
            &&& forall|j: int| 0 <= j < before.len() && j != place->0 ==> after[j] == before[j]
        }),
{
    let before = snapshot_outcome(snapshot)->Ok_0;
    let i = first_match(before, user.credentials)->0;
    assert(is_first_match(before, user.credentials, i));
}

} // verus!
