//! The client's worker: a state machine over the requests it is sent.
use vstd::prelude::*;

verus! {

/// The states of the worker.
#[derive(PartialEq, Eq, Structural, Debug, Clone, Copy)]
pub enum State {
    Init,
    SettingAddr,
    SetAddr,
    Connecting,
    Connected,
    /// Where an event that the current state does not allow leads.
    InvalidState,
}

/// The events of the worker.
#[derive(PartialEq, Eq, Structural, Debug, Clone, Copy)]
pub enum Event {
    SetAddr,
    Connect,
    Succeed,
    Failed,
}

/// The state `event` leads to from `state`, when it is allowed there.
pub open spec fn spec_next(state: State, event: Event) -> Option<State> {
    match (state, event) {
        (State::Init, Event::SetAddr) => Some(State::SettingAddr),
        (State::SetAddr, Event::SetAddr) => Some(State::SettingAddr),
        (State::SetAddr, Event::Connect) => Some(State::Connecting),
        (State::SettingAddr, Event::Succeed) => Some(State::SetAddr),
        (State::Connecting, Event::Succeed) => Some(State::Connected),
        (State::SettingAddr, Event::Failed) => Some(State::Init),
        (State::Connecting, Event::Failed) => Some(State::SetAddr),
        _ => None,
    }
}

/// The kinds of request the worker is sent.
#[derive(PartialEq, Eq, Structural, Debug, Clone, Copy)]
pub enum RequestKind {
    SetAddr,
    Connect,
}

/// The worker's state machine, which starts in `Init`.
#[derive(Debug)]
pub struct RbtcFsm {
    state: State,
}

impl RbtcFsm {
    /// The current state.
    pub closed spec fn spec_state(&self) -> State {
        self.state
    }

    /// A machine in `Init`.
    pub fn new() -> (m: RbtcFsm)
        ensures
            m.spec_state() == State::Init,
    {
        RbtcFsm { state: State::Init }
    }

    /// The current state.
    pub fn state(&self) -> (s: State)
        ensures
            s == self.spec_state(),
    {
        self.state
    }

    fn fire(&mut self, event: Event) -> (r: Option<State>)
        ensures
            r == spec_next(old(self).spec_state(), event),
            final(self).spec_state() == match r {
                Some(s) => s,
                None => State::InvalidState,
            },
    {
        let next = match (self.state, event) {
            (State::Init, Event::SetAddr) => Some(State::SettingAddr),
            (State::SetAddr, Event::SetAddr) => Some(State::SettingAddr),
            (State::SetAddr, Event::Connect) => Some(State::Connecting),
            (State::SettingAddr, Event::Succeed) => Some(State::SetAddr),
            (State::Connecting, Event::Succeed) => Some(State::Connected),
            (State::SettingAddr, Event::Failed) => Some(State::Init),
            (State::Connecting, Event::Failed) => Some(State::SetAddr),
            _ => None,
        };
        self.state = match next {
            Some(s) => s,
            None => State::InvalidState,
        };
        next
    }

    /// A request to set the address: `Init` or `SetAddr` move to
    /// `SettingAddr`.
    pub fn set_addr(&mut self) -> (r: Option<State>)
        ensures
            r == spec_next(old(self).spec_state(), Event::SetAddr),
            final(self).spec_state() == match r {
                Some(s) => s,
                None => State::InvalidState,
            },
    {
        self.fire(Event::SetAddr)
    }

    /// A request to connect: `SetAddr` moves to `Connecting`.
    pub fn connect(&mut self) -> (r: Option<State>)
        ensures
            r == spec_next(old(self).spec_state(), Event::Connect),
            final(self).spec_state() == match r {
                Some(s) => s,
                None => State::InvalidState,
            },
    {
        self.fire(Event::Connect)
    }

    /// The current step succeeded.
    pub fn succeed(&mut self) -> (r: Option<State>)
        ensures
            r == spec_next(old(self).spec_state(), Event::Succeed),
            final(self).spec_state() == match r {
                Some(s) => s,
                None => State::InvalidState,
            },
    {
        self.fire(Event::Succeed)
    }

    /// The current step failed.
    pub fn failed(&mut self) -> (r: Option<State>)
        ensures
            r == spec_next(old(self).spec_state(), Event::Failed),
            final(self).spec_state() == match r {
                Some(s) => s,
                None => State::InvalidState,
            },
    {
        self.fire(Event::Failed)
    }

    /// Takes a request: moves the machine by it, and says whether the caller
    /// now resolves the address of a `SetAddr` request (and then calls
    /// [`RbtcFsm::set_addr_done`]).
    pub fn change_state(&mut self, request: RequestKind) -> (resolve: bool)
        ensures
            final(self).spec_state() == match spec_next(
                old(self).spec_state(),
                match request {
                    RequestKind::SetAddr => Event::SetAddr,
                    RequestKind::Connect => Event::Connect,
                },
            ) {
                Some(s) => s,
                None => State::InvalidState,
            },
            resolve == (request == RequestKind::SetAddr && final(self).spec_state()
                == State::SettingAddr),
    {
        let next = match request {
            RequestKind::SetAddr => self.set_addr(),
            RequestKind::Connect => self.connect(),
        };
        match next {
            Some(State::SettingAddr) => request == RequestKind::SetAddr,
            _ => false,
        }
    }

    /// Takes whether the address of a `SetAddr` request could be resolved.
    pub fn set_addr_done(&mut self, resolved: bool) -> (r: Option<State>)
        ensures
            r == spec_next(old(self).spec_state(), if resolved { Event::Succeed } else { Event::Failed }),
            final(self).spec_state() == match r {
                Some(s) => s,
                None => State::InvalidState,
            },
    {
        if resolved {
            self.succeed()
        } else {
            self.failed()
        }
    }
}

} // verus!
