//! The walk of one node as a state machine: connect, exchange versions, ask
//! for addresses, and read them.
//!
//! The machine decides; the caller does the work. [`action_after`] names the
//! work that follows an event, the `on_...` handlers turn the outcome of that
//! work into the next event, and [`transition`] moves the machine.
use vstd::prelude::*;

use crate::nodewalker::result::{
    ConnectRetryResult, EndResult, InitConnectResult, ReceiveMessageResult, SendGetAddrRetryResult,
    SendMessageResult,
};

verus! {

/// The states of a walk.
#[derive(PartialEq, Eq, Structural, Debug, Clone, Copy)]
pub enum WalkerState {
    Init,
    Connect,
    VersionSent,
    VersionReceived,
    VerackReceived,
    VerackSent,
    Handshake,
    GetAddr,
    Addr,
    End,
}

/// The events that move a walk.
#[derive(PartialEq, Eq, Structural, Debug, Clone, Copy)]
pub enum WalkerEvent {
    ParseAddrFailed,
    RetryFailed,
    ConnectSocket,
    ConnectFailed,
    SendVersion,
    SendVersionFailed,
    ReceiveVersion,
    ReceiveVersionFailed,
    ReceiveVerack,
    ReceiveVerackFailed,
    SendVerack,
    SendVerackFailed,
    SetVersion,
    SendGetAddr,
    SendGetAddrFailed,
    SendGetAddrRetryFailed,
    ReceiveAddr,
    ReceiveOther,
    ParseAddr,
}

/// The transition table: the state that `event` leads to from `state`, when
/// the event is allowed there.
pub open spec fn spec_transition(state: WalkerState, event: WalkerEvent) -> Option<WalkerState> {
    match (state, event) {
        (WalkerState::Init, WalkerEvent::ParseAddrFailed) => Some(WalkerState::End),
        (WalkerState::Init, WalkerEvent::RetryFailed) => Some(WalkerState::End),
        (WalkerState::Init, WalkerEvent::ConnectSocket) => Some(WalkerState::Connect),
        (WalkerState::Init, WalkerEvent::ConnectFailed) => Some(WalkerState::Init),
        (WalkerState::Connect, WalkerEvent::SendVersion) => Some(WalkerState::VersionSent),
        (WalkerState::Connect, WalkerEvent::SendVersionFailed) => Some(WalkerState::End),
        (WalkerState::VersionSent, WalkerEvent::ReceiveVersion) => Some(WalkerState::VersionReceived),
        (WalkerState::VersionSent, WalkerEvent::ReceiveVersionFailed) => Some(WalkerState::End),
        (WalkerState::VersionReceived, WalkerEvent::ReceiveVerack) => Some(
            WalkerState::VerackReceived,
        ),
        (WalkerState::VersionReceived, WalkerEvent::ReceiveVerackFailed) => Some(WalkerState::End),
        (WalkerState::VerackReceived, WalkerEvent::SendVerack) => Some(WalkerState::VerackSent),
        (WalkerState::VerackReceived, WalkerEvent::SendVerackFailed) => Some(WalkerState::End),
        (WalkerState::VerackSent, WalkerEvent::SetVersion) => Some(WalkerState::Handshake),
        (WalkerState::Handshake, WalkerEvent::SendGetAddr) => Some(WalkerState::GetAddr),
        (WalkerState::Handshake, WalkerEvent::SendGetAddrFailed) => Some(WalkerState::Handshake),
        (WalkerState::Handshake, WalkerEvent::SendGetAddrRetryFailed) => Some(WalkerState::End),
        (WalkerState::GetAddr, WalkerEvent::ReceiveAddr) => Some(WalkerState::Addr),
        (WalkerState::Handshake, WalkerEvent::ReceiveOther) => Some(WalkerState::Handshake),
        (WalkerState::GetAddr, WalkerEvent::ReceiveOther) => Some(WalkerState::Handshake),
        (WalkerState::Addr, WalkerEvent::ParseAddr) => Some(WalkerState::End),
        _ => None,
    }
}

/// The state that `event` leads to from `state`, or `None` when the event is
/// not allowed there.
pub fn transition(state: WalkerState, event: WalkerEvent) -> (r: Option<WalkerState>)
    ensures
        r == spec_transition(state, event),
{
    match (state, event) {
        (WalkerState::Init, WalkerEvent::ParseAddrFailed) => Some(WalkerState::End),
        (WalkerState::Init, WalkerEvent::RetryFailed) => Some(WalkerState::End),
        (WalkerState::Init, WalkerEvent::ConnectSocket) => Some(WalkerState::Connect),
        (WalkerState::Init, WalkerEvent::ConnectFailed) => Some(WalkerState::Init),
        (WalkerState::Connect, WalkerEvent::SendVersion) => Some(WalkerState::VersionSent),
        (WalkerState::Connect, WalkerEvent::SendVersionFailed) => Some(WalkerState::End),
        (WalkerState::VersionSent, WalkerEvent::ReceiveVersion) => Some(WalkerState::VersionReceived),
        (WalkerState::VersionSent, WalkerEvent::ReceiveVersionFailed) => Some(WalkerState::End),
        (WalkerState::VersionReceived, WalkerEvent::ReceiveVerack) => Some(
            WalkerState::VerackReceived,
        ),
        (WalkerState::VersionReceived, WalkerEvent::ReceiveVerackFailed) => Some(WalkerState::End),
        (WalkerState::VerackReceived, WalkerEvent::SendVerack) => Some(WalkerState::VerackSent),
        (WalkerState::VerackReceived, WalkerEvent::SendVerackFailed) => Some(WalkerState::End),
        (WalkerState::VerackSent, WalkerEvent::SetVersion) => Some(WalkerState::Handshake),
        (WalkerState::Handshake, WalkerEvent::SendGetAddr) => Some(WalkerState::GetAddr),
        (WalkerState::Handshake, WalkerEvent::SendGetAddrFailed) => Some(WalkerState::Handshake),
        (WalkerState::Handshake, WalkerEvent::SendGetAddrRetryFailed) => Some(WalkerState::End),
        (WalkerState::GetAddr, WalkerEvent::ReceiveAddr) => Some(WalkerState::Addr),
        (WalkerState::Handshake, WalkerEvent::ReceiveOther) => Some(WalkerState::Handshake),
        (WalkerState::GetAddr, WalkerEvent::ReceiveOther) => Some(WalkerState::Handshake),
        (WalkerState::Addr, WalkerEvent::ParseAddr) => Some(WalkerState::End),
        _ => None,
    }
}

/// The work a walk does next.
#[derive(PartialEq, Eq, Structural, Debug, Clone, Copy)]
pub enum WalkerAction {
    /// Read the node's address and connect to it.
    InitConnectRetry,
    /// Connect again.
    ConnectRetry,
    SendVersion,
    ReceiveVersion,
    ReceiveVerack,
    SendVerack,
    /// Record the peer's version.
    SetVersion,
    /// Send `getaddr`, unless the attempts are used up.
    SendGetAddrRetry,
    ReceiveAddr,
    /// Collect the addresses received.
    ParseAddr,
    /// Stop: the walk is over.
    End(EndResult),
}

/// The state a walk is in once `last` has happened; `None` is the start.
pub open spec fn spec_state_after(last: Option<WalkerEvent>) -> WalkerState {
    match last {
        None => WalkerState::Init,
        Some(e) => match e {
            WalkerEvent::ConnectFailed => WalkerState::Init,
            WalkerEvent::ConnectSocket => WalkerState::Connect,
            WalkerEvent::SendVersion => WalkerState::VersionSent,
            WalkerEvent::ReceiveVersion => WalkerState::VersionReceived,
            WalkerEvent::ReceiveVerack => WalkerState::VerackReceived,
            WalkerEvent::SendVerack => WalkerState::VerackSent,
            WalkerEvent::SetVersion => WalkerState::Handshake,
            WalkerEvent::SendGetAddrFailed => WalkerState::Handshake,
            WalkerEvent::ReceiveOther => WalkerState::Handshake,
            WalkerEvent::SendGetAddr => WalkerState::GetAddr,
            WalkerEvent::ReceiveAddr => WalkerState::Addr,
            _ => WalkerState::End,
        },
    }
}

/// How a walk that stopped on `event` ended, if the event ends a walk.
pub open spec fn spec_end_result(event: WalkerEvent) -> Option<EndResult> {
    match event {
        WalkerEvent::ParseAddrFailed => Some(EndResult::ParseAddrFailed),
        WalkerEvent::RetryFailed => Some(EndResult::RetryFailed),
        WalkerEvent::SendVersionFailed => Some(EndResult::SendVersionFailed),
        WalkerEvent::ReceiveVersionFailed => Some(EndResult::ReceiveVersionFailed),
        WalkerEvent::ReceiveVerackFailed => Some(EndResult::ReceiveVerackFailed),
        WalkerEvent::SendVerackFailed => Some(EndResult::SendVerackFailed),
        WalkerEvent::SendGetAddrRetryFailed => Some(EndResult::SendGetAddrRetryFailed),
        WalkerEvent::ParseAddr => Some(EndResult::ParseAddr),
        _ => None,
    }
}

/// The work that follows `last`: each state has its handler, and the start
/// and a failed connection, which both lead to `Init`, have their own.
pub open spec fn spec_action_after(last: Option<WalkerEvent>) -> WalkerAction {
    match last {
        None => WalkerAction::InitConnectRetry,
        Some(e) => match e {
            WalkerEvent::ConnectFailed => WalkerAction::ConnectRetry,
            WalkerEvent::ConnectSocket => WalkerAction::SendVersion,
            WalkerEvent::SendVersion => WalkerAction::ReceiveVersion,
            WalkerEvent::ReceiveVersion => WalkerAction::ReceiveVerack,
            WalkerEvent::ReceiveVerack => WalkerAction::SendVerack,
            WalkerEvent::SendVerack => WalkerAction::SetVersion,
            WalkerEvent::SetVersion => WalkerAction::SendGetAddrRetry,
            WalkerEvent::SendGetAddrFailed => WalkerAction::SendGetAddrRetry,
            WalkerEvent::ReceiveOther => WalkerAction::SendGetAddrRetry,
            WalkerEvent::SendGetAddr => WalkerAction::ReceiveAddr,
            WalkerEvent::ReceiveAddr => WalkerAction::ParseAddr,
            _ => WalkerAction::End(spec_end_result(e)->Some_0),
        },
    }
}

/// The work that follows `last` (`None` at the start).
pub fn action_after(last: Option<WalkerEvent>) -> (a: WalkerAction)
    ensures
        a == spec_action_after(last),
{
    match last {
        None => WalkerAction::InitConnectRetry,
        Some(e) => match e {
            WalkerEvent::ConnectFailed => WalkerAction::ConnectRetry,
            WalkerEvent::ConnectSocket => WalkerAction::SendVersion,
            WalkerEvent::SendVersion => WalkerAction::ReceiveVersion,
            WalkerEvent::ReceiveVersion => WalkerAction::ReceiveVerack,
            WalkerEvent::ReceiveVerack => WalkerAction::SendVerack,
            WalkerEvent::SendVerack => WalkerAction::SetVersion,
            WalkerEvent::SetVersion => WalkerAction::SendGetAddrRetry,
            WalkerEvent::SendGetAddrFailed => WalkerAction::SendGetAddrRetry,
            WalkerEvent::ReceiveOther => WalkerAction::SendGetAddrRetry,
            WalkerEvent::SendGetAddr => WalkerAction::ReceiveAddr,
            WalkerEvent::ReceiveAddr => WalkerAction::ParseAddr,
            WalkerEvent::ParseAddrFailed => WalkerAction::End(EndResult::ParseAddrFailed),
            WalkerEvent::RetryFailed => WalkerAction::End(EndResult::RetryFailed),
            WalkerEvent::SendVersionFailed => WalkerAction::End(EndResult::SendVersionFailed),
            WalkerEvent::ReceiveVersionFailed => WalkerAction::End(EndResult::ReceiveVersionFailed),
            WalkerEvent::ReceiveVerackFailed => WalkerAction::End(EndResult::ReceiveVerackFailed),
            WalkerEvent::SendVerackFailed => WalkerAction::End(EndResult::SendVerackFailed),
            WalkerEvent::SendGetAddrRetryFailed => WalkerAction::End(
                EndResult::SendGetAddrRetryFailed,
            ),
            WalkerEvent::ParseAddr => WalkerAction::End(EndResult::ParseAddr),
        },
    }
}

/// `Init` at the start: the event that reading the address and connecting
/// gives.
pub fn on_initial_init(r: InitConnectResult) -> (e: WalkerEvent)
    ensures
        e == match r {
            InitConnectResult::Succeed => WalkerEvent::ConnectSocket,
            InitConnectResult::ConnectFailed => WalkerEvent::ConnectFailed,
            InitConnectResult::ParseAddrFailed => WalkerEvent::ParseAddrFailed,
            InitConnectResult::TooManyRetry => WalkerEvent::RetryFailed,
        },
{
    match r {
        InitConnectResult::Succeed => WalkerEvent::ConnectSocket,
        InitConnectResult::ConnectFailed => WalkerEvent::ConnectFailed,
        InitConnectResult::ParseAddrFailed => WalkerEvent::ParseAddrFailed,
        InitConnectResult::TooManyRetry => WalkerEvent::RetryFailed,
    }
}

/// `Init` after a failed connection: the event that connecting again gives.
pub fn on_init_by_connect_failed(r: ConnectRetryResult) -> (e: WalkerEvent)
    ensures
        e == match r {
            ConnectRetryResult::Succeed => WalkerEvent::ConnectSocket,
            ConnectRetryResult::ConnectFailed => WalkerEvent::ConnectFailed,
            ConnectRetryResult::TooManyRetry => WalkerEvent::RetryFailed,
        },
{
    match r {
        ConnectRetryResult::Succeed => WalkerEvent::ConnectSocket,
        ConnectRetryResult::ConnectFailed => WalkerEvent::ConnectFailed,
        ConnectRetryResult::TooManyRetry => WalkerEvent::RetryFailed,
    }
}

/// `Connect`: the event that sending `version` gives.
pub fn on_connect_by_connect_socket(r: SendMessageResult) -> (e: WalkerEvent)
    ensures
        e == if r == SendMessageResult::Succeed {
            WalkerEvent::SendVersion
        } else {
            WalkerEvent::SendVersionFailed
        },
{
    match r {
        SendMessageResult::Succeed => WalkerEvent::SendVersion,
        _ => WalkerEvent::SendVersionFailed,
    }
}

/// `VersionSent`: the event that waiting for the peer's `version` gives.
pub fn on_version_sent_by_send_version(r: ReceiveMessageResult) -> (e: WalkerEvent)
    ensures
        e == if r == ReceiveMessageResult::Succeed {
            WalkerEvent::ReceiveVersion
        } else {
            WalkerEvent::ReceiveVersionFailed
        },
{
    match r {
        ReceiveMessageResult::Succeed => WalkerEvent::ReceiveVersion,
        _ => WalkerEvent::ReceiveVersionFailed,
    }
}

/// `VersionReceived`: the event that waiting for the peer's `verack` gives.
pub fn on_version_received_by_receive_version(r: ReceiveMessageResult) -> (e: WalkerEvent)
    ensures
        e == if r == ReceiveMessageResult::Succeed {
            WalkerEvent::ReceiveVerack
        } else {
            WalkerEvent::ReceiveVerackFailed
        },
{
    match r {
        ReceiveMessageResult::Succeed => WalkerEvent::ReceiveVerack,
        _ => WalkerEvent::ReceiveVerackFailed,
    }
}

/// `VerackReceived`: the event that sending `verack` gives.
pub fn on_verack_received_by_receive_verack(r: SendMessageResult) -> (e: WalkerEvent)
    ensures
        e == if r == SendMessageResult::Succeed {
            WalkerEvent::SendVerack
        } else {
            WalkerEvent::SendVerackFailed
        },
{
    match r {
        SendMessageResult::Succeed => WalkerEvent::SendVerack,
        _ => WalkerEvent::SendVerackFailed,
    }
}

/// `VerackSent`: the handshake is done once the peer's version is recorded.
pub fn on_verack_sent_by_send_verack() -> (e: WalkerEvent)
    ensures
        e == WalkerEvent::SetVersion,
{
    WalkerEvent::SetVersion
}

/// The event that an attempt to send `getaddr` gives.
pub open spec fn spec_getaddr_event(r: SendGetAddrRetryResult) -> WalkerEvent {
    match r {
        SendGetAddrRetryResult::Succeed => WalkerEvent::SendGetAddr,
        SendGetAddrRetryResult::Failed => WalkerEvent::SendGetAddrFailed,
        SendGetAddrRetryResult::TooManyRetry => WalkerEvent::SendGetAddrRetryFailed,
    }
}

fn getaddr_event(r: SendGetAddrRetryResult) -> (e: WalkerEvent)
    ensures
        e == spec_getaddr_event(r),
{
    match r {
        SendGetAddrRetryResult::Succeed => WalkerEvent::SendGetAddr,
        SendGetAddrRetryResult::Failed => WalkerEvent::SendGetAddrFailed,
        SendGetAddrRetryResult::TooManyRetry => WalkerEvent::SendGetAddrRetryFailed,
    }
}

/// `Handshake` once the versions are exchanged: send `getaddr`.
pub fn on_handshake_by_set_version(r: SendGetAddrRetryResult) -> (e: WalkerEvent)
    ensures
        e == spec_getaddr_event(r),
{
    getaddr_event(r)
}

/// `Handshake` after a reply that held no addresses: send `getaddr` again.
pub fn on_handshake_by_receive_other(r: SendGetAddrRetryResult) -> (e: WalkerEvent)
    ensures
        e == spec_getaddr_event(r),
{
    getaddr_event(r)
}

/// `Handshake` after `getaddr` could not be sent: try again.
pub fn on_handshake_by_send_getaddr_failed(r: SendGetAddrRetryResult) -> (e: WalkerEvent)
    ensures
        e == spec_getaddr_event(r),
{
    getaddr_event(r)
}

/// `GetAddr`: the event that waiting for `addr` gives.
pub fn on_get_addr_by_send_getaddr(r: ReceiveMessageResult) -> (e: WalkerEvent)
    ensures
        e == if r == ReceiveMessageResult::Succeed {
            WalkerEvent::ReceiveAddr
        } else {
            WalkerEvent::ReceiveOther
        },
{
    match r {
        ReceiveMessageResult::Succeed => WalkerEvent::ReceiveAddr,
        _ => WalkerEvent::ReceiveOther,
    }
}

/// `Addr`: the walk ends once the addresses are collected.
pub fn on_addr_by_receive_addr() -> (e: WalkerEvent)
    ensures
        e == WalkerEvent::ParseAddr,
{
    WalkerEvent::ParseAddr
}

/// The outcome of the work of one step, as the handlers read it.
#[derive(PartialEq, Eq, Structural, Debug, Clone, Copy)]
pub enum WalkerOutcome {
    InitConnect(InitConnectResult),
    ConnectRetry(ConnectRetryResult),
    SendMessage(SendMessageResult),
    ReceiveMessage(ReceiveMessageResult),
    SendGetAddrRetry(SendGetAddrRetryResult),
    /// Work that cannot fail.
    Done,
}

/// The event that `outcome` gives after `action`, or `None` when the outcome
/// is not one that the action has.
pub open spec fn spec_event_of(action: WalkerAction, outcome: WalkerOutcome) -> Option<WalkerEvent> {
    match (action, outcome) {
        (WalkerAction::InitConnectRetry, WalkerOutcome::InitConnect(r)) => Some(
            match r {
                InitConnectResult::Succeed => WalkerEvent::ConnectSocket,
                InitConnectResult::ConnectFailed => WalkerEvent::ConnectFailed,
                InitConnectResult::ParseAddrFailed => WalkerEvent::ParseAddrFailed,
                InitConnectResult::TooManyRetry => WalkerEvent::RetryFailed,
            },
        ),
        (WalkerAction::ConnectRetry, WalkerOutcome::ConnectRetry(r)) => Some(
            match r {
                ConnectRetryResult::Succeed => WalkerEvent::ConnectSocket,
                ConnectRetryResult::ConnectFailed => WalkerEvent::ConnectFailed,
                ConnectRetryResult::TooManyRetry => WalkerEvent::RetryFailed,
            },
        ),
        (WalkerAction::SendVersion, WalkerOutcome::SendMessage(r)) => Some(
            if r == SendMessageResult::Succeed {
                WalkerEvent::SendVersion
            } else {
                WalkerEvent::SendVersionFailed
            },
        ),
        (WalkerAction::ReceiveVersion, WalkerOutcome::ReceiveMessage(r)) => Some(
            if r == ReceiveMessageResult::Succeed {
                WalkerEvent::ReceiveVersion
            } else {
                WalkerEvent::ReceiveVersionFailed
            },
        ),
        (WalkerAction::ReceiveVerack, WalkerOutcome::ReceiveMessage(r)) => Some(
            if r == ReceiveMessageResult::Succeed {
                WalkerEvent::ReceiveVerack
            } else {
                WalkerEvent::ReceiveVerackFailed
            },
        ),
        (WalkerAction::SendVerack, WalkerOutcome::SendMessage(r)) => Some(
            if r == SendMessageResult::Succeed {
                WalkerEvent::SendVerack
            } else {
                WalkerEvent::SendVerackFailed
            },
        ),
        (WalkerAction::SetVersion, WalkerOutcome::Done) => Some(WalkerEvent::SetVersion),
        (WalkerAction::SendGetAddrRetry, WalkerOutcome::SendGetAddrRetry(r)) => Some(
            spec_getaddr_event(r),
        ),
        (WalkerAction::ReceiveAddr, WalkerOutcome::ReceiveMessage(r)) => Some(
            if r == ReceiveMessageResult::Succeed {
                WalkerEvent::ReceiveAddr
            } else {
                WalkerEvent::ReceiveOther
            },
        ),
        (WalkerAction::ParseAddr, WalkerOutcome::Done) => Some(WalkerEvent::ParseAddr),
        _ => None,
    }
}

/// The event that `outcome` gives after `action`: the handler of the state
/// that the action belongs to.
pub fn event_of(action: WalkerAction, outcome: WalkerOutcome) -> (e: Option<WalkerEvent>)
    ensures
        e == spec_event_of(action, outcome),
{
    match (action, outcome) {
        (WalkerAction::InitConnectRetry, WalkerOutcome::InitConnect(r)) => Some(on_initial_init(r)),
        (WalkerAction::ConnectRetry, WalkerOutcome::ConnectRetry(r)) => Some(
            on_init_by_connect_failed(r),
        ),
        (WalkerAction::SendVersion, WalkerOutcome::SendMessage(r)) => Some(
            on_connect_by_connect_socket(r),
        ),
        (WalkerAction::ReceiveVersion, WalkerOutcome::ReceiveMessage(r)) => Some(
            on_version_sent_by_send_version(r),
        ),
        (WalkerAction::ReceiveVerack, WalkerOutcome::ReceiveMessage(r)) => Some(
            on_version_received_by_receive_version(r),
        ),
        (WalkerAction::SendVerack, WalkerOutcome::SendMessage(r)) => Some(
            on_verack_received_by_receive_verack(r),
        ),
        (WalkerAction::SetVersion, WalkerOutcome::Done) => Some(on_verack_sent_by_send_verack()),
        (WalkerAction::SendGetAddrRetry, WalkerOutcome::SendGetAddrRetry(r)) => Some(
            getaddr_event(r),
        ),
        (WalkerAction::ReceiveAddr, WalkerOutcome::ReceiveMessage(r)) => Some(
            on_get_addr_by_send_getaddr(r),
        ),
        (WalkerAction::ParseAddr, WalkerOutcome::Done) => Some(on_addr_by_receive_addr()),
        _ => None,
    }
}

/// The handlers never leave the machine without a move: from the state that
/// an event leads to, every outcome of the work that follows gives an event
/// that the transition table allows there, and it leads to the state that the
/// table names. A walk stops exactly in `End`.
pub proof fn lemma_handlers_follow_table(last: Option<WalkerEvent>, outcome: WalkerOutcome)
    ensures
        spec_action_after(last) is End <==> spec_state_after(last) == WalkerState::End,
        spec_event_of(spec_action_after(last), outcome) matches Some(e) ==> spec_transition(
            spec_state_after(last),
            e,
        ) == Some(spec_state_after(Some(e))),
{
}

/// Every event the table allows leads to the state that the event alone
/// names: the last event tells the state of a walk.
pub proof fn lemma_event_determines_state(state: WalkerState, event: WalkerEvent)
    ensures
        spec_transition(state, event) matches Some(next) ==> next == spec_state_after(Some(event)),
{
}

} // verus!
