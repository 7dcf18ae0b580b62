//! What each step of a walk can come to.
use vstd::prelude::*;

verus! {

/// How a walk of a node ended.
#[derive(PartialEq, Eq, Structural, Debug, Clone, Copy)]
pub enum EndResult {
    ParseAddrFailed,
    RetryFailed,
    SendVersionFailed,
    ReceiveVersionFailed,
    ReceiveVerackFailed,
    SendVerackFailed,
    SendGetAddrRetryFailed,
    ParseAddr,
}

/// Opening a connection.
#[derive(PartialEq, Eq, Structural, Debug, Clone, Copy)]
pub enum ConnectResult {
    Succeed,
    ConnectFailed,
}

/// Reading the node's address.
#[derive(PartialEq, Eq, Structural, Debug, Clone, Copy)]
pub enum InitResult {
    Succeed,
    ParseAddrFailed,
}

/// Reading the node's address and then connecting to it.
#[derive(PartialEq, Eq, Structural, Debug, Clone, Copy)]
pub enum InitConnectResult {
    Succeed,
    ParseAddrFailed,
    ConnectFailed,
    TooManyRetry,
}

/// Writing messages to the node.
#[derive(PartialEq, Eq, Structural, Debug, Clone, Copy)]
pub enum SendResult {
    Succeed,
    EncodeFailed,
    WriteFailed,
}

/// Sending one kind of message.
#[derive(PartialEq, Eq, Structural, Debug, Clone, Copy)]
pub enum SendMessageResult {
    Succeed,
    Failed,
}

/// Connecting, with a bounded number of attempts.
#[derive(PartialEq, Eq, Structural, Debug, Clone, Copy)]
pub enum ConnectRetryResult {
    Succeed,
    ConnectFailed,
    TooManyRetry,
}

/// Reading from the node.
#[derive(PartialEq, Eq, Structural, Debug, Clone, Copy)]
pub enum ReceiveResult {
    ReadFailed,
    ReadEmpty,
    ReadSome,
}

/// Decoding what was read.
#[derive(PartialEq, Eq, Structural, Debug, Clone, Copy)]
pub enum DecodeResult {
    NeedMoreData,
    DecodeFailed,
    Succeed,
}

/// Waiting for one kind of message.
#[derive(PartialEq, Eq, Structural, Debug, Clone, Copy)]
pub enum ReceiveMessageResult {
    Failed,
    Succeed,
}

/// Sending `getaddr`, with a bounded number of attempts.
#[derive(PartialEq, Eq, Structural, Debug, Clone, Copy)]
pub enum SendGetAddrRetryResult {
    TooManyRetry,
    Succeed,
    Failed,
}

} // verus!
