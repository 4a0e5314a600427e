//! The ways in which the ledger can fail.

use crate::account::{validation_message, ValidationError};
use vstd::prelude::*;

verus! {

/// Why an operation of the ledger did not succeed.
#[derive(Clone, Copy, Debug, PartialEq, Eq, Structural)]
pub enum LedgerError {
    /// The backing medium could not be opened, read or written.
    Io,
    /// What the medium holds is not a sequence of valid user records.
    Parse,
    /// The account refused the amount.
    Validation(ValidationError),
    /// No stored user has the credentials asked for.
    NotFound,
    /// The stored account is no longer the one that the caller's handle
    /// shows: someone else changed it in between.
    Conflict,
}

/// The error in words.
pub open spec fn error_message(e: LedgerError) -> Seq<char> {
    match e {
        LedgerError::Io => "Error while opening file"@,
        LedgerError::Parse => "Error fetching users"@,
        LedgerError::Validation(refusal) => validation_message(refusal),
        LedgerError::NotFound => "user not found"@,
        LedgerError::Conflict => "account changed in the meantime"@,
    }
}

impl LedgerError {
    /// The error in words.
    pub fn message(&self) -> (text: &'static str)
        ensures
            text@ == error_message(*self),
    {
        match self {
            LedgerError::Io => "Error while opening file",
            LedgerError::Parse => "Error fetching users",
            LedgerError::Validation(refusal) => refusal.message(),
            LedgerError::NotFound => "user not found",
            LedgerError::Conflict => "account changed in the meantime",
        }
    }
}

} // verus!
