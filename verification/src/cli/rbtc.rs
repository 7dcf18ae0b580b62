//! The errors that the client's requests are answered with.
use vstd::prelude::*;

verus! {

/// An answer to a request that failed, with what went wrong.
#[derive(Debug)]
pub enum Error {
    /// No error (named `None` where the name is free).
    Nothing,
    SetAddrResponseFailed(String),
    CommectFailed(String),
}

} // verus!
