//! What the steps of the command line client come to.
use vstd::prelude::*;

verus! {

/// Starting the client.
#[derive(PartialEq, Eq, Structural, Debug, Clone, Copy)]
pub enum InitResult {
    Succeed,
}

/// Setting the address of the node to talk to.
#[derive(PartialEq, Eq, Structural, Debug, Clone, Copy)]
pub enum SetAddrResult {
    Succeed,
    ParseAddrFailed,
    ConnectFailed,
    TooManyRetry,
}

} // verus!
