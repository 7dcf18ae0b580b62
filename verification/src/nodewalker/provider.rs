//! What a walker program records of the nodes it found, and the errors of
//! the store.
use vstd::prelude::*;

use crate::nodewalker::result::EndResult;

verus! {

/// A node found and not walked yet.
pub const STATUS_NEW: i64 = 0;

/// A node walked to its addresses.
pub const STATUS_VALID: i64 = 1;

/// A node whose address could not be used.
pub const STATUS_DELETED: i64 = 2;

/// A node that did not complete the exchange.
pub const STATUS_DEACTIVATE: i64 = 4;

/// The ways in which the store of nodes can fail.
#[derive(PartialEq, Eq, Structural, Debug, Clone, Copy)]
pub enum ProviderError {
    New,
    Init,
    Insert,
    InsertIterator,
    Select,
    SelectIterator,
    Update,
    Transaction,
    Savepoint,
    Commit,
}

/// The name of an error.
pub open spec fn spec_provider_error_name(e: ProviderError) -> Seq<char> {
    match e {
        ProviderError::New => "New"@,
        ProviderError::Init => "Init"@,
        ProviderError::Insert => "Insert"@,
        ProviderError::InsertIterator => "InsertIterator"@,
        ProviderError::Select => "Select"@,
        ProviderError::SelectIterator => "SelectIterator"@,
        ProviderError::Update => "Update"@,
        ProviderError::Transaction => "Transaction"@,
        ProviderError::Savepoint => "Savepoint"@,
        ProviderError::Commit => "Commit"@,
    }
}

impl ProviderError {
    /// The error's name, as it is shown.
    pub fn to_string(&self) -> (s: String)
        ensures
            s@ == spec_provider_error_name(*self),
    {
        let name = match self {
            ProviderError::New => "New",
            ProviderError::Init => "Init",
            ProviderError::Insert => "Insert",
            ProviderError::InsertIterator => "InsertIterator",
            ProviderError::Select => "Select",
            ProviderError::SelectIterator => "SelectIterator",
            ProviderError::Update => "Update",
            ProviderError::Transaction => "Transaction",
            ProviderError::Savepoint => "Savepoint",
            ProviderError::Commit => "Commit",
        };
        name.to_owned()
    }
}

/// What the store does with a walked node once its walk ended.
#[derive(PartialEq, Eq, Structural, Debug, Clone, Copy)]
pub enum EndAction {
    /// Record the addresses found, and mark the node valid.
    Insert,
    /// Mark the node deleted.
    Delete,
    /// Mark the node deactivated.
    Deactivate,
}

/// What a walk's end calls for: a walk that read addresses inserts them; one
/// that could not use the node's address, or could not connect, deletes the
/// node; one that failed later deactivates it; a walk without a result calls
/// for nothing.
pub open spec fn spec_end_action(result: Option<EndResult>) -> Option<EndAction> {
    match result {
        None => None,
        Some(r) => Some(
            match r {
                EndResult::ParseAddr => EndAction::Insert,
                EndResult::ParseAddrFailed => EndAction::Delete,
                EndResult::RetryFailed => EndAction::Delete,
                _ => EndAction::Deactivate,
            },
        ),
    }
}

/// What a walk's end calls for.
pub fn end_action(result: Option<EndResult>) -> (a: Option<EndAction>)
    ensures
        a == spec_end_action(result),
{
    match result {
        None => None,
        Some(r) => Some(
            match r {
                EndResult::ParseAddr => EndAction::Insert,
                EndResult::ParseAddrFailed => EndAction::Delete,
                EndResult::RetryFailed => EndAction::Delete,
                EndResult::SendVersionFailed => EndAction::Deactivate,
                EndResult::ReceiveVersionFailed => EndAction::Deactivate,
                EndResult::ReceiveVerackFailed => EndAction::Deactivate,
                EndResult::SendVerackFailed => EndAction::Deactivate,
                EndResult::SendGetAddrRetryFailed => EndAction::Deactivate,
            },
        ),
    }
}

/// The status a walked node gets for `action`.
pub fn end_status(action: EndAction) -> (s: i64)
    ensures
        s == match action {
            EndAction::Insert => STATUS_VALID,
            EndAction::Delete => STATUS_DELETED,
            EndAction::Deactivate => STATUS_DEACTIVATE,
        },
{
    match action {
        EndAction::Insert => STATUS_VALID,
        EndAction::Delete => STATUS_DELETED,
        EndAction::Deactivate => STATUS_DEACTIVATE,
    }
}

} // verus!
