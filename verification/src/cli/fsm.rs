//! The client's start-up: it waits in `Init` until an address is set.
use vstd::prelude::*;

use crate::cli::result::InitResult;

verus! {

/// The states of the client's start-up.
#[derive(PartialEq, Eq, Structural, Debug, Clone, Copy)]
pub enum RbtcState {
    Init,
    SetAddr,
}

/// The events of the client's start-up.
#[derive(PartialEq, Eq, Structural, Debug, Clone, Copy)]
pub enum RbtcEvent {
    SetAddrSucceed,
    SetAddrFailed,
}

/// The state `event` leads to from `state`, when it is allowed there.
pub open spec fn spec_transition(state: RbtcState, event: RbtcEvent) -> Option<RbtcState> {
    match (state, event) {
        (RbtcState::Init, RbtcEvent::SetAddrSucceed) => Some(RbtcState::SetAddr),
        (RbtcState::Init, RbtcEvent::SetAddrFailed) => Some(RbtcState::Init),
        _ => None,
    }
}

/// The state `event` leads to from `state`, or `None` when it is not allowed.
pub fn transition(state: RbtcState, event: RbtcEvent) -> (r: Option<RbtcState>)
    ensures
        r == spec_transition(state, event),
{
    match (state, event) {
        (RbtcState::Init, RbtcEvent::SetAddrSucceed) => Some(RbtcState::SetAddr),
        (RbtcState::Init, RbtcEvent::SetAddrFailed) => Some(RbtcState::Init),
        _ => None,
    }
}

/// `Init` at the start: the event that starting the client gives.
pub fn on_init_by_none_event(r: InitResult) -> (e: RbtcEvent)
    ensures
        e == RbtcEvent::SetAddrSucceed,
{
    match r {
        InitResult::Succeed => RbtcEvent::SetAddrSucceed,
    }
}

/// `Init` after a failed attempt: the event that starting again gives.
pub fn on_init_by_set_addr_failed(r: InitResult) -> (e: RbtcEvent)
    ensures
        e == RbtcEvent::SetAddrSucceed,
{
    match r {
        InitResult::Succeed => RbtcEvent::SetAddrSucceed,
    }
}

} // verus!
