//! A configurable state machine: states permit triggers that lead to other
//! states, and name the actions to run on entering and on leaving them.
//!
//! Actions are numbers chosen by the caller; [`StateMachine::fire`] returns
//! the actions to run, in order, and the caller runs them.
use vstd::prelude::*;
use std::collections::HashMap;

verus! {

broadcast use vstd::std_specs::hash::group_hash_axioms;

/// The states.
#[derive(PartialEq, Eq, Structural, Hash, Debug, Clone, Copy)]
pub enum State {
    Init,
    Connected,
    End,
}

/// The triggers.
#[derive(PartialEq, Eq, Structural, Hash, Debug, Clone, Copy)]
pub enum Trigger {
    ConnectParseAddrFailed,
    ConnectSucceed,
    ConnectFailed,
    ConnectRetryFailed,
    ReadSucceed,
    ReadFailed,
    ReadRetryFailed,
    WriteSucceed,
    WriteFailed,
    WriteRetryFailed,
}

/// The number that names a state's configuration.
pub type StateConfigurationId = u32;

/// The number that names an action; the caller knows what each one does.
pub type ActionId = u32;

/// The value of the latest entry for `key` in `entries`, if any: an entry
/// made later replaces an earlier one.
pub open spec fn spec_lookup<K, V>(entries: Seq<(K, V)>, key: K) -> Option<V>
    decreases entries.len(),
{
    if entries.len() == 0 {
        None
    } else if entries.last().0 == key {
        Some(entries.last().1)
    } else {
        spec_lookup(entries.drop_last(), key)
    }
}

/// Where a trigger leads.
#[derive(Debug, Clone, Copy)]
pub struct TriggerConfiguration {
    pub trigger: Trigger,
    pub destination: State,
}

/// What a state permits and does.
#[derive(Debug)]
pub struct StateConfiguration {
    triggers: Vec<TriggerConfiguration>,
    entry_actions: Vec<ActionId>,
    exit_actions: Vec<ActionId>,
}

/// The model of a [`StateConfiguration`].
pub struct SpecStateConfiguration {
    /// The triggers permitted and where they lead, latest last.
    pub triggers: Seq<(Trigger, State)>,
    /// The actions run on entering the state, in order.
    pub entry_actions: Seq<ActionId>,
    /// The actions run on leaving the state, in order.
    pub exit_actions: Seq<ActionId>,
}

impl StateConfiguration {
    /// Where `trigger` leads, if the state permits it.
    fn find_trigger(&self, trigger: Trigger) -> (r: Option<State>)
        ensures
            r == spec_lookup(self.view().triggers, trigger),
    {
        let ghost entries = self.view().triggers;
        let mut i: usize = self.triggers.len();
        assert(entries.take(entries.len() as int) =~= entries);
        while i > 0
            invariant
                i <= entries.len(),
                entries == self.view().triggers,
                spec_lookup(entries, trigger) == spec_lookup(entries.take(i as int), trigger),
            decreases i,
        {
            let k = i - 1;
            assert(entries.take(i as int).drop_last() =~= entries.take(k as int));
            if self.triggers[k].trigger == trigger {
                return Some(self.triggers[k].destination);
            }
            i = k;
        }
        None
    }

    pub closed spec fn view(&self) -> SpecStateConfiguration {
        SpecStateConfiguration {
            triggers: self.triggers@.map_values(
                |t: TriggerConfiguration| (t.trigger, t.destination),
            ),
            entry_actions: self.entry_actions@,
            exit_actions: self.exit_actions@,
        }
    }
}

/// A state machine.
///
/// Configurations are kept in a map by number. The configuration number of
/// each state, and a state's permitted triggers, are kept as entries searched
/// latest first, so that a later entry for a key replaces an earlier one.
pub struct StateMachine {
    state: State,
    states: Vec<(State, StateConfigurationId)>,
    configurations: HashMap<StateConfigurationId, StateConfiguration>,
    ids: u32,
}

/// The model of a [`StateMachine`].
pub struct SpecStateMachine {
    /// The current state.
    pub state: State,
    /// The configuration of each state, latest last.
    pub states: Seq<(State, StateConfigurationId)>,
    /// The configurations, by number.
    pub configurations: Map<StateConfigurationId, SpecStateConfiguration>,
    /// The next configuration number.
    pub ids: u32,
}

/// The configuration numbered `id`, if there is one.
pub open spec fn spec_configuration(m: SpecStateMachine, id: StateConfigurationId) -> Option<
    SpecStateConfiguration,
> {
    if m.configurations.contains_key(id) {
        Some(m.configurations[id])
    } else {
        None
    }
}

/// The configuration of `state`, if it was configured.
pub open spec fn spec_configuration_of(m: SpecStateMachine, state: State) -> Option<
    SpecStateConfiguration,
> {
    match spec_lookup(m.states, state) {
        None => None,
        Some(id) => spec_configuration(m, id),
    }
}

/// Firing `trigger`: when the current state is configured and permits the
/// trigger, and the state it leads to is configured, the new state and the
/// actions to run (those of leaving the current state, then those of
/// entering the new one); otherwise nothing.
pub open spec fn spec_fire(m: SpecStateMachine, trigger: Trigger) -> Option<(State, Seq<ActionId>)> {
    match spec_configuration_of(m, m.state) {
        None => None,
        Some(current) => match spec_lookup(current.triggers, trigger) {
            None => None,
            Some(next) => match spec_configuration_of(m, next) {
                None => None,
                Some(entered) => Some((next, current.exit_actions + entered.entry_actions)),
            },
        },
    }
}

/// A handle on the configuration of a state, to add to it.
#[derive(Debug, Clone, Copy)]
pub struct StateConfigurationOperation {
    id: StateConfigurationId,
}

impl StateConfigurationOperation {
    /// The configuration this handle adds to.
    pub closed spec fn spec_id(&self) -> StateConfigurationId {
        self.id
    }

    fn config_id(&self) -> (id: StateConfigurationId)
        ensures
            id == self.spec_id(),
    {
        self.id
    }
}

impl StateMachine {
    pub closed spec fn view(&self) -> SpecStateMachine {
        SpecStateMachine {
            state: self.state,
            states: self.states@,
            configurations: self.configurations@.map_values(|c: StateConfiguration| c.view()),
            ids: self.ids,
        }
    }

    /// A machine in `initial_state`, with nothing configured.
    pub fn new(initial_state: State) -> (m: StateMachine)
        ensures
            m@.state == initial_state,
            m@.states.len() == 0,
            m@.configurations == Map::<StateConfigurationId, SpecStateConfiguration>::empty(),
            m@.ids == 0,
    {
        let m = StateMachine {
            state: initial_state,
            states: Vec::new(),
            configurations: HashMap::new(),
            ids: 0,
        };
        assert(m@.configurations =~= Map::<StateConfigurationId, SpecStateConfiguration>::empty());
        m
    }

    /// The current state.
    pub fn state(&self) -> (s: State)
        ensures
            s == self@.state,
    {
        self.state
    }

    fn next_id(&mut self) -> (id: u32)
        ensures
            id == old(self)@.ids,
            final(self)@ == (SpecStateMachine { ids: old(self)@.ids.wrapping_add(1), ..old(self)@ }),
    {
        let id = self.ids;
        self.ids = self.ids.wrapping_add(1);
        id
    }

    fn next_state_configuration_id(&mut self) -> (id: StateConfigurationId)
        ensures
            id == old(self)@.ids,
            final(self)@ == (SpecStateMachine { ids: old(self)@.ids.wrapping_add(1), ..old(self)@ }),
    {
        self.next_id()
    }

    /// Starts a new, empty configuration of `state`, which replaces the one it
    /// had, and returns a handle to add to it.
    pub fn configure(&mut self, state: State) -> (op: StateConfigurationOperation)
        ensures
            op.spec_id() == old(self)@.ids,
            final(self)@.state == old(self)@.state,
            final(self)@.ids == old(self)@.ids.wrapping_add(1),
            final(self)@.states == old(self)@.states.push((state, op.spec_id())),
            final(self)@.configurations == old(self)@.configurations.insert(
                op.spec_id(),
                SpecStateConfiguration {
                    triggers: Seq::empty(),
                    entry_actions: Seq::empty(),
                    exit_actions: Seq::empty(),
                },
            ),
    {
        let ghost before = self.configurations@;
        let id = self.next_state_configuration_id();
        let configuration = StateConfiguration {
            triggers: Vec::new(),
            entry_actions: Vec::new(),
            exit_actions: Vec::new(),
        };
        assert(configuration.view().triggers =~= Seq::empty());
        self.states.push((state, id));
        self.configurations.insert(id, configuration);
        assert(self@.configurations =~= old(self)@.configurations.insert(
            id,
            SpecStateConfiguration {
                triggers: Seq::empty(),
                entry_actions: Seq::empty(),
                exit_actions: Seq::empty(),
            },
        ));
        StateConfigurationOperation { id: id }
    }

    /// The configuration number of `state`, if it was configured.
    fn find_state(&self, state: State) -> (id: Option<StateConfigurationId>)
        ensures
            id == spec_lookup(self@.states, state),
    {
        let ghost entries = self@.states;
        let mut i: usize = self.states.len();
        assert(entries.take(entries.len() as int) =~= entries);
        while i > 0
            invariant
                i <= entries.len(),
                entries == self@.states,
                spec_lookup(entries, state) == spec_lookup(entries.take(i as int), state),
            decreases i,
        {
            let k = i - 1;
            assert(entries.take(i as int).drop_last() =~= entries.take(k as int));
            if self.states[k].0 == state {
                return Some(self.states[k].1);
            }
            i = k;
        }
        None
    }

    /// Fires `trigger`: moves to the state it leads to and returns the actions
    /// to run, when the current state permits it and both states are
    /// configured; otherwise changes nothing and returns no action.
    pub fn fire(&mut self, trigger: Trigger) -> (actions: Vec<ActionId>)
        ensures
            final(self)@.states == old(self)@.states,
            final(self)@.configurations == old(self)@.configurations,
            final(self)@.ids == old(self)@.ids,
            match spec_fire(old(self)@, trigger) {
                None => final(self)@.state == old(self)@.state && actions@.len() == 0,
                Some((next, run)) => final(self)@.state == next && actions@ == run,
            },
    {
        let csid = match self.find_state(self.state) {
            None => return Vec::new(),
            Some(id) => id,
        };
        let current = match self.configurations.get(&csid) {
            None => return Vec::new(),
            Some(c) => c,
        };
        let next = match current.find_trigger(trigger) {
            None => return Vec::new(),
            Some(s) => s,
        };
        let nsid = match self.find_state(next) {
            None => return Vec::new(),
            Some(id) => id,
        };
        let entered = match self.configurations.get(&nsid) {
            None => return Vec::new(),
            Some(c) => c,
        };
        let mut actions: Vec<ActionId> = Vec::new();
        let mut k: usize = 0;
        while k < current.exit_actions.len()
            invariant
                actions@ == current.view().exit_actions.take(k as int),
                k <= current.view().exit_actions.len(),
            decreases current.exit_actions.len() - k,
        {
            actions.push(current.exit_actions[k]);
            k = k + 1;
            assert(actions@ =~= current.view().exit_actions.take(k as int));
        }
        let ghost exits = actions@;
        let mut k: usize = 0;
        while k < entered.entry_actions.len()
            invariant
                actions@ == exits + entered.view().entry_actions.take(k as int),
                k <= entered.view().entry_actions.len(),
            decreases entered.entry_actions.len() - k,
        {
            actions.push(entered.entry_actions[k]);
            k = k + 1;
            assert(actions@ =~= exits + entered.view().entry_actions.take(k as int));
        }
        proof {
            assert(current.view().exit_actions.take(current.view().exit_actions.len() as int)
                =~= current.view().exit_actions);
            assert(entered.view().entry_actions.take(entered.view().entry_actions.len() as int)
                =~= entered.view().entry_actions);
        }
        self.state = next;
        actions
    }
}

impl StateConfigurationOperation {
    /// Lets `trigger` lead from the configured state to `destination`,
    /// replacing where it led before.
    pub fn permit(self, machine: &mut StateMachine, trigger: Trigger, destination: State) -> (op:
        StateConfigurationOperation)
        ensures
            op == self,
            final(machine)@.state == old(machine)@.state,
            final(machine)@.states == old(machine)@.states,
            final(machine)@.ids == old(machine)@.ids,
            final(machine)@.configurations == if old(machine)@.configurations.contains_key(
                self.spec_id(),
            ) {
                old(machine)@.configurations.insert(
                    self.spec_id(),
                    SpecStateConfiguration {
                        triggers: old(machine)@.configurations[self.spec_id()].triggers.push((trigger, destination)),
                        ..old(machine)@.configurations[self.spec_id()]
                    },
                )
            } else {
                old(machine)@.configurations
            },
    {
        let ghost before = machine.configurations@;
        match machine.configurations.remove(&self.id) {
            None => {
                assert(machine@.configurations =~= old(machine)@.configurations);
            },
            Some(mut config) => {
                let ghost was = config.view();
                config.triggers.push(TriggerConfiguration { trigger: trigger, destination: destination });
                let ghost updated = config.view();
                machine.configurations.insert(self.id, config);
                proof {
                    assert(machine.configurations@ =~= before.insert(self.id, config));
                    assert(updated.triggers =~= was.triggers.push((trigger, destination)));
                    assert(updated =~= SpecStateConfiguration {
                        triggers: was.triggers.push((trigger, destination)),
                        ..was
                    });
                    assert(machine@.configurations =~= old(machine)@.configurations.insert(
                        self.id,
                        updated,
                    ));
                }
            },
        }
        self
    }

    /// Adds `action` to those run on entering the configured state.
    pub fn on_entry(self, machine: &mut StateMachine, action: ActionId) -> (op:
        StateConfigurationOperation)
        ensures
            op == self,
            final(machine)@.state == old(machine)@.state,
            final(machine)@.states == old(machine)@.states,
            final(machine)@.ids == old(machine)@.ids,
            final(machine)@.configurations == if old(machine)@.configurations.contains_key(
                self.spec_id(),
            ) {
                old(machine)@.configurations.insert(
                    self.spec_id(),
                    SpecStateConfiguration {
                        entry_actions: old(machine)@.configurations[self.spec_id()].entry_actions.push(action),
                        ..old(machine)@.configurations[self.spec_id()]
                    },
                )
            } else {
                old(machine)@.configurations
            },
    {
        let ghost before = machine.configurations@;
        match machine.configurations.remove(&self.id) {
            None => {
                assert(machine@.configurations =~= old(machine)@.configurations);
            },
            Some(mut config) => {
                let ghost was = config.view();
                config.entry_actions.push(action);
                let ghost updated = config.view();
                machine.configurations.insert(self.id, config);
                proof {
                    assert(machine.configurations@ =~= before.insert(self.id, config));
                    assert(updated =~= SpecStateConfiguration {
                        entry_actions: was.entry_actions.push(action),
                        ..was
                    });
                    assert(machine@.configurations =~= old(machine)@.configurations.insert(
                        self.id,
                        updated,
                    ));
                }
            },
        }
        self
    }

    /// Adds `action` to those run on leaving the configured state.
    pub fn on_exit(self, machine: &mut StateMachine, action: ActionId) -> (op:
        StateConfigurationOperation)
        ensures
            op == self,
            final(machine)@.state == old(machine)@.state,
            final(machine)@.states == old(machine)@.states,
            final(machine)@.ids == old(machine)@.ids,
            final(machine)@.configurations == if old(machine)@.configurations.contains_key(
                self.spec_id(),
            ) {
                old(machine)@.configurations.insert(
                    self.spec_id(),
                    SpecStateConfiguration {
                        exit_actions: old(machine)@.configurations[self.spec_id()].exit_actions.push(action),
                        ..old(machine)@.configurations[self.spec_id()]
                    },
                )
            } else {
                old(machine)@.configurations
            },
    {
        let ghost before = machine.configurations@;
        match machine.configurations.remove(&self.id) {
            None => {
                assert(machine@.configurations =~= old(machine)@.configurations);
            },
            Some(mut config) => {
                let ghost was = config.view();
                config.exit_actions.push(action);
                let ghost updated = config.view();
                machine.configurations.insert(self.id, config);
                proof {
                    assert(machine.configurations@ =~= before.insert(self.id, config));
                    assert(updated =~= SpecStateConfiguration {
                        exit_actions: was.exit_actions.push(action),
                        ..was
                    });
                    assert(machine@.configurations =~= old(machine)@.configurations.insert(
                        self.id,
                        updated,
                    ));
                }
            },
        }
        self
    }
}

/// The action run on entering `Init`.
pub const ENTER_INIT: ActionId = 0;

/// The action run on leaving `Init`.
pub const EXIT_INIT: ActionId = 1;

/// The action run on entering `Connected`.
pub const ENTER_CONNECTED: ActionId = 2;

/// The action run on leaving `Connected`.
pub const EXIT_CONNECTED: ActionId = 3;

/// The action run on entering `End`.
pub const ENTER_END: ActionId = 4;

/// The action run on leaving `End`.
pub const EXIT_END: ActionId = 5;

/// The configuration of `Init` in a TCP client: a failed connection stays,
/// a connection leads to `Connected`, an address that cannot be read or
/// retries used up lead to `End`.
pub open spec fn spec_client_init() -> SpecStateConfiguration {
    SpecStateConfiguration {
        triggers: seq![
            (Trigger::ConnectFailed, State::Init),
            (Trigger::ConnectSucceed, State::Connected),
            (Trigger::ConnectParseAddrFailed, State::End),
            (Trigger::ConnectRetryFailed, State::End),
        ],
        entry_actions: seq![ENTER_INIT],
        exit_actions: seq![EXIT_INIT],
    }
}

/// The configuration of `Connected` in a TCP client: reads and writes stay,
/// used-up retries lead to `End`.
pub open spec fn spec_client_connected() -> SpecStateConfiguration {
    SpecStateConfiguration {
        triggers: seq![
            (Trigger::ReadSucceed, State::Connected),
            (Trigger::ReadFailed, State::Connected),
            (Trigger::ReadRetryFailed, State::End),
            (Trigger::WriteSucceed, State::Connected),
            (Trigger::WriteFailed, State::Connected),
            (Trigger::WriteRetryFailed, State::End),
        ],
        entry_actions: seq![ENTER_CONNECTED],
        exit_actions: seq![EXIT_CONNECTED],
    }
}

/// The configuration of `End` in a TCP client: nothing leaves it.
pub open spec fn spec_client_end() -> SpecStateConfiguration {
    SpecStateConfiguration {
        triggers: Seq::empty(),
        entry_actions: seq![ENTER_END],
        exit_actions: seq![EXIT_END],
    }
}

/// `m` is configured as a TCP client: `Init`, `Connected` and `End` as
/// above.
pub open spec fn spec_is_client_machine(m: SpecStateMachine) -> bool {
    &&& spec_configuration_of(m, State::Init) == Some(spec_client_init())
    &&& spec_configuration_of(m, State::Connected) == Some(spec_client_connected())
    &&& spec_configuration_of(m, State::End) == Some(spec_client_end())
}

/// The transition table of a TCP client: where `trigger` leads from
/// `state`, if it is permitted there.
pub open spec fn spec_client_next(state: State, trigger: Trigger) -> Option<State> {
    match (state, trigger) {
        (State::Init, Trigger::ConnectSucceed) => Some(State::Connected),
        (State::Init, Trigger::ConnectFailed) => Some(State::Init),
        (State::Init, Trigger::ConnectParseAddrFailed) => Some(State::End),
        (State::Init, Trigger::ConnectRetryFailed) => Some(State::End),
        (State::Connected, Trigger::ReadSucceed) => Some(State::Connected),
        (State::Connected, Trigger::ReadFailed) => Some(State::Connected),
        (State::Connected, Trigger::WriteSucceed) => Some(State::Connected),
        (State::Connected, Trigger::WriteFailed) => Some(State::Connected),
        (State::Connected, Trigger::ReadRetryFailed) => Some(State::End),
        (State::Connected, Trigger::WriteRetryFailed) => Some(State::End),
        _ => None,
    }
}

/// The actions run on leaving `state` in a TCP client.
pub open spec fn spec_client_exit(state: State) -> ActionId {
    match state {
        State::Init => EXIT_INIT,
        State::Connected => EXIT_CONNECTED,
        State::End => EXIT_END,
    }
}

/// The actions run on entering `state` in a TCP client.
pub open spec fn spec_client_entry(state: State) -> ActionId {
    match state {
        State::Init => ENTER_INIT,
        State::Connected => ENTER_CONNECTED,
        State::End => ENTER_END,
    }
}

/// A TCP client's machine follows its transition table: a permitted trigger
/// leads where the table says, running the exit action of the state left and
/// then the entry action of the state entered; any other trigger changes
/// nothing. Nothing leaves `End`. Firing keeps the machine a TCP client's.
pub proof fn lemma_client_machine_table(m: SpecStateMachine, trigger: Trigger)
    requires
        spec_is_client_machine(m),
    ensures
        spec_fire(m, trigger) == match spec_client_next(m.state, trigger) {
            None => None,
            Some(next) => Some(
                (next, seq![spec_client_exit(m.state), spec_client_entry(next)]),
            ),
        },
        m.state == State::End ==> spec_fire(m, trigger) is None,
        forall|n: SpecStateMachine|
            n.states == m.states && n.configurations == m.configurations ==> #[trigger] spec_is_client_machine(n),
{
    reveal_with_fuel(spec_lookup, 7);
    let init = spec_client_init();
    let connected = spec_client_connected();
    assert(init.triggers.drop_last() =~= seq![
        (Trigger::ConnectFailed, State::Init),
        (Trigger::ConnectSucceed, State::Connected),
        (Trigger::ConnectParseAddrFailed, State::End),
    ]);
    assert(init.triggers.drop_last().drop_last() =~= seq![
        (Trigger::ConnectFailed, State::Init),
        (Trigger::ConnectSucceed, State::Connected),
    ]);
    assert(init.triggers.drop_last().drop_last().drop_last() =~= seq![
        (Trigger::ConnectFailed, State::Init),
    ]);
    assert(init.triggers.drop_last().drop_last().drop_last().drop_last() =~= Seq::<(Trigger, State)>::empty());
    let c = connected.triggers;
    assert(c.drop_last() =~= c.take(5));
    assert(c.take(5).drop_last() =~= c.take(4));
    assert(c.take(4).drop_last() =~= c.take(3));
    assert(c.take(3).drop_last() =~= c.take(2));
    assert(c.take(2).drop_last() =~= c.take(1));
    assert(c.take(1).drop_last() =~= Seq::<(Trigger, State)>::empty());
    assert(seq![spec_client_exit(m.state)] + seq![ENTER_INIT] =~= seq![spec_client_exit(m.state), ENTER_INIT]);
    assert(seq![spec_client_exit(m.state)] + seq![ENTER_CONNECTED] =~= seq![spec_client_exit(m.state), ENTER_CONNECTED]);
    assert(seq![spec_client_exit(m.state)] + seq![ENTER_END] =~= seq![spec_client_exit(m.state), ENTER_END]);
}

/// Configures `state` of `m` anew, with one entry action, one exit action
/// and the triggers of `permits`, in order; the other configurations stay.
fn configure_state(
    m: &mut StateMachine,
    state: State,
    entry: ActionId,
    exit: ActionId,
    permits: Vec<(Trigger, State)>,
) -> (id: StateConfigurationId)
    ensures
        id == old(m)@.ids,
        final(m)@.state == old(m)@.state,
        final(m)@.ids == old(m)@.ids.wrapping_add(1),
        final(m)@.states == old(m)@.states.push((state, id)),
        final(m)@.configurations == old(m)@.configurations.insert(
            id,
            SpecStateConfiguration {
                triggers: permits@,
                entry_actions: seq![entry],
                exit_actions: seq![exit],
            },
        ),
{
    let op = m.configure(state);
    let id = op.config_id();
    let op = op.on_entry(m, entry);
    let op = op.on_exit(m, exit);
    assert(seq![entry] =~= Seq::<ActionId>::empty().push(entry));
    assert(seq![exit] =~= Seq::<ActionId>::empty().push(exit));
    assert(permits@.take(0) =~= Seq::<(Trigger, State)>::empty());
    let mut i: usize = 0;
    while i < permits.len()
        invariant
            i <= permits@.len(),
            op.spec_id() == id,
            id == old(m)@.ids,
            m@.state == old(m)@.state,
            m@.ids == old(m)@.ids.wrapping_add(1),
            m@.states == old(m)@.states.push((state, id)),
            m@.configurations == old(m)@.configurations.insert(
                id,
                SpecStateConfiguration {
                    triggers: permits@.take(i as int),
                    entry_actions: seq![entry],
                    exit_actions: seq![exit],
                },
            ),
        decreases permits.len() - i,
    {
        let (trigger, destination) = permits[i];
        op.permit(m, trigger, destination);
        proof {
            assert(permits@.take(i as int).push((trigger, destination)) =~= permits@.take(i + 1));
        }
        i = i + 1;
        assert(m@.configurations =~= old(m)@.configurations.insert(
            id,
            SpecStateConfiguration {
                triggers: permits@.take(i as int),
                entry_actions: seq![entry],
                exit_actions: seq![exit],
            },
        ));
    }
    assert(permits@.take(permits@.len() as int) =~= permits@);
    id
}

/// The state machine of a TCP client, in `Init`.
pub fn tcp_client_machine() -> (m: StateMachine)
    ensures
        m@.state == State::Init,
        spec_is_client_machine(m@),
        spec_configuration_of(m@, State::Init) == Some(spec_client_init()),
        spec_configuration_of(m@, State::Connected) == Some(spec_client_connected()),
        spec_configuration_of(m@, State::End) == Some(spec_client_end()),
{
    let mut m = StateMachine::new(State::Init);
    configure_state(
        &mut m,
        State::Init,
        ENTER_INIT,
        EXIT_INIT,
        vec![
            (Trigger::ConnectFailed, State::Init),
            (Trigger::ConnectSucceed, State::Connected),
            (Trigger::ConnectParseAddrFailed, State::End),
            (Trigger::ConnectRetryFailed, State::End),
        ],
    );
    configure_state(
        &mut m,
        State::Connected,
        ENTER_CONNECTED,
        EXIT_CONNECTED,
        vec![
            (Trigger::ReadSucceed, State::Connected),
            (Trigger::ReadFailed, State::Connected),
            (Trigger::ReadRetryFailed, State::End),
            (Trigger::WriteSucceed, State::Connected),
            (Trigger::WriteFailed, State::Connected),
            (Trigger::WriteRetryFailed, State::End),
        ],
    );
    configure_state(&mut m, State::End, ENTER_END, EXIT_END, Vec::new());
    proof {
        assert(m@.configurations[0] =~~= spec_client_init());
        assert(m@.configurations[1] =~~= spec_client_connected());
        assert(m@.configurations[2] =~~= spec_client_end());
        let states = seq![(State::Init, 0u32), (State::Connected, 1u32), (State::End, 2u32)];
        assert(m@.states =~= states);
        reveal_with_fuel(spec_lookup, 4);
        assert(states.drop_last() =~= seq![(State::Init, 0u32), (State::Connected, 1u32)]);
        assert(states.drop_last().drop_last() =~= seq![(State::Init, 0u32)]);
    }
    m
}

} // verus!
