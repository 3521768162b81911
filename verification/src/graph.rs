//! The state graph: an arena of states, each with its checks, its commands
//! and an optional timeout. Transitions name their destination by its place
//! in the arena, so the graph may loop back on itself freely.

use crate::bounded::{
    check_items, checks_as_slice, checks_new, checks_push, command_items, commands_as_slice,
    commands_new, commands_push, state_items, states_as_slice, states_new, states_push,
};
use crate::data_format::{
    CheckData, CommandObject, Seconds, MAX_CHECKS_PER_STATE, MAX_COMMANDS_PER_STATE, MAX_STATES,
};
use crate::state_machine::Timeout;
use vstd::prelude::*;

verus! {

/// The identifier of a state: its place in the graph, counted from zero in
/// the order in which the states were added.
#[derive(Debug, Copy, Clone, PartialEq, Eq)]
pub struct StateId(pub usize);

/// A move to another state. The two flavours move alike; they differ in how
/// the move is reported.
#[derive(Debug, Copy, Clone, PartialEq, Eq)]
pub enum StateTransition {
    /// A routine advance to the next phase.
    Transition(StateId),
    /// A change of phase that a fault forced.
    Abort(StateId),
}

impl StateTransition {
    /// The state the move leads to.
    pub open spec fn destination(self) -> StateId {
        match self {
            StateTransition::Transition(state) => state,
            StateTransition::Abort(state) => state,
        }
    }

    /// The state the move leads to.
    pub fn target(&self) -> (state: StateId)
        ensures
            state == self.destination(),
    {
        match *self {
            StateTransition::Transition(state) => state,
            StateTransition::Abort(state) => state,
        }
    }
}

/// A rule of a state: a condition on one quantity and, optionally, the
/// transition to take when the condition is met.
#[derive(Debug, Copy, Clone, PartialEq, Eq)]
pub struct Check {
    pub data: CheckData,
    pub transition: Option<StateTransition>,
}

impl Check {
    /// A check of `data` that takes `transition` when it is met.
    pub fn new(data: CheckData, transition: Option<StateTransition>) -> (check: Self)
        ensures
            check.data == data,
            check.transition == transition,
    {
        Self { data, transition }
    }
}

/// An instruction of a state: what to set, and how long after the state was
/// entered.
#[derive(Debug, Copy, Clone, PartialEq, Eq)]
pub struct Command {
    pub object: CommandObject,
    pub delay: Seconds,
}

impl Command {
    /// A command that sets `object` once `delay` has passed in its state.
    pub fn new(object: CommandObject, delay: Seconds) -> (command: Self)
        ensures
            command.object == object,
            command.delay == delay,
    {
        Self { object, delay }
    }
}

/// What can be wrong with a graph. All of it is found while the graph is put
/// together or handed to the engine, never during a tick.
#[derive(Debug, Copy, Clone, PartialEq, Eq)]
pub enum GraphError {
    /// The graph already holds `MAX_STATES` states.
    TooManyStates,
    /// The state already holds `MAX_CHECKS_PER_STATE` checks.
    TooManyChecks,
    /// The state already holds `MAX_COMMANDS_PER_STATE` commands.
    TooManyCommands,
    /// A transition, or the initial state, names a state the graph lacks.
    UnresolvedReference,
    /// An interval condition has its upper bound below its lower bound.
    InvertedInterval,
}

/// One state of the graph.
pub struct State {
    checks: heapless::Vec<Check, MAX_CHECKS_PER_STATE>,
    commands: heapless::Vec<Command, MAX_COMMANDS_PER_STATE>,
    timeout: Option<Timeout>,
}

/// What a state is, to the contracts: its checks and its commands in the
/// order in which they were declared, and its timeout.
pub struct StateView {
    pub checks: Seq<Check>,
    pub commands: Seq<Command>,
    pub timeout: Option<Timeout>,
}

impl View for State {
    type V = StateView;

    closed spec fn view(&self) -> StateView {
        StateView {
            checks: check_items(self.checks),
            commands: command_items(self.commands),
            timeout: self.timeout,
        }
    }
}

impl State {
    #[verifier::type_invariant]
    spec fn fits(self) -> bool {
        &&& check_items(self.checks).len() <= MAX_CHECKS_PER_STATE
        &&& command_items(self.commands).len() <= MAX_COMMANDS_PER_STATE
    }

    /// A state without checks, commands or timeout.
    pub fn new() -> (state: State)
        ensures
            state@.checks == Seq::<Check>::empty(),
            state@.commands == Seq::<Command>::empty(),
            state@.timeout is None,
            state@.within_capacity(),
    {
        State { checks: checks_new(), commands: commands_new(), timeout: None }
    }

    /// Appends a check, which ranks below all the checks added before it. A
    /// state that is full is left unchanged.
    pub fn add_check(&mut self, check: Check) -> (r: Result<(), GraphError>)
        ensures
            match r {
                Ok(()) => old(self)@.checks.len() < MAX_CHECKS_PER_STATE && final(self)@ == (
                StateView { checks: old(self)@.checks.push(check), ..old(self)@ }),
                Err(e) => e == GraphError::TooManyChecks && old(self)@.checks.len()
                    == MAX_CHECKS_PER_STATE && final(self)@ == old(self)@,
            },
            final(self)@.within_capacity(),
    {
        proof {
            use_type_invariant(&*self);
        }
        let mut checks = checks_new();
        core::mem::swap(&mut checks, &mut self.checks);
        let pushed = checks_push(&mut checks, check);
        self.checks = checks;
        match pushed {
            Ok(()) => Ok(()),
            Err(_) => Err(GraphError::TooManyChecks),
        }
    }

    /// Appends a command. A state that is full is left unchanged.
    pub fn add_command(&mut self, command: Command) -> (r: Result<(), GraphError>)
        ensures
            match r {
                Ok(()) => old(self)@.commands.len() < MAX_COMMANDS_PER_STATE && final(self)@ == (
                StateView { commands: old(self)@.commands.push(command), ..old(self)@ }),
                Err(e) => e == GraphError::TooManyCommands && old(self)@.commands.len()
                    == MAX_COMMANDS_PER_STATE && final(self)@ == old(self)@,
            },
            final(self)@.within_capacity(),
    {
        proof {
            use_type_invariant(&*self);
        }
        let mut commands = commands_new();
        core::mem::swap(&mut commands, &mut self.commands);
        let pushed = commands_push(&mut commands, command);
        self.commands = commands;
        match pushed {
            Ok(()) => Ok(()),
            Err(_) => Err(GraphError::TooManyCommands),
        }
    }

    /// Sets the timeout, replacing the one that was there.
    pub fn set_timeout(&mut self, timeout: Timeout)
        ensures
            final(self)@ == (StateView { timeout: Some(timeout), ..old(self)@ }),
            final(self)@.within_capacity(),
    {
        proof {
            use_type_invariant(&*self);
        }
        self.timeout = Some(timeout);
    }

    /// The checks, in the order in which they are evaluated.
    pub fn checks(&self) -> (checks: &[Check])
        ensures
            checks@ == self@.checks,
            checks@.len() <= MAX_CHECKS_PER_STATE,
    {
        proof {
            use_type_invariant(self);
        }
        checks_as_slice(&self.checks)
    }

    /// The commands, in the order in which they are dispatched.
    pub fn commands(&self) -> (commands: &[Command])
        ensures
            commands@ == self@.commands,
            commands@.len() <= MAX_COMMANDS_PER_STATE,
    {
        proof {
            use_type_invariant(self);
        }
        commands_as_slice(&self.commands)
    }

    /// The timeout, if the state has one.
    pub fn timeout(&self) -> (timeout: Option<Timeout>)
        ensures
            timeout == self@.timeout,
    {
        self.timeout
    }
}

/// Whether a transition, where there is one, leads to one of the first
/// `states` states.
pub open spec fn transition_resolved(transition: Option<StateTransition>, states: nat) -> bool {
    transition matches Some(t) ==> t.destination().0 < states
}

impl StateView {
    /// Whether every transition of the state leads into a graph of `states`
    /// states.
    pub open spec fn resolved(self, states: nat) -> bool {
        &&& forall|i: int|
            0 <= i < self.checks.len() ==> transition_resolved(
                (#[trigger] self.checks[i]).transition,
                states,
            )
        &&& self.timeout matches Some(timeout) ==> timeout.transition.destination().0 < states
    }

    /// Whether every condition of the state can be configured: no interval
    /// is inverted.
    pub open spec fn conditions_well_formed(self) -> bool {
        forall|i: int| 0 <= i < self.checks.len() ==> (#[trigger] self.checks[i]).data.well_formed()
    }

    /// Whether the state holds no more checks and commands than fit.
    pub open spec fn within_capacity(self) -> bool {
        &&& self.checks.len() <= MAX_CHECKS_PER_STATE
        &&& self.commands.len() <= MAX_COMMANDS_PER_STATE
    }
}

/// Whether every transition in the graph leads to a state of the graph.
pub open spec fn graph_resolved(graph: Seq<StateView>) -> bool {
    forall|s: int| 0 <= s < graph.len() ==> (#[trigger] graph[s]).resolved(graph.len())
}

/// Whether no condition in the graph is an inverted interval.
pub open spec fn graph_conditions_well_formed(graph: Seq<StateView>) -> bool {
    forall|s: int| 0 <= s < graph.len() ==> (#[trigger] graph[s]).conditions_well_formed()
}

/// Whether the graph and each of its states hold no more than fits.
pub open spec fn graph_within_capacity(graph: Seq<StateView>) -> bool {
    &&& graph.len() <= MAX_STATES
    &&& forall|s: int| 0 <= s < graph.len() ==> (#[trigger] graph[s]).within_capacity()
}

/// Whether the graph is fit to fly: within capacity, every reference
/// resolved, every condition well formed.
pub open spec fn graph_valid(graph: Seq<StateView>) -> bool {
    &&& graph_within_capacity(graph)
    &&& graph_resolved(graph)
    &&& graph_conditions_well_formed(graph)
}

/// What is wrong with the graph, if anything is. A reference that does not
/// resolve is reported before an inverted interval.
pub open spec fn graph_fault(graph: Seq<StateView>) -> Option<GraphError> {
    if !graph_resolved(graph) {
        Some(GraphError::UnresolvedReference)
    } else if !graph_conditions_well_formed(graph) {
        Some(GraphError::InvertedInterval)
    } else {
        None
    }
}

/// The graph: its states, each known by its place.
pub struct StateGraph {
    states: heapless::Vec<State, MAX_STATES>,
}

impl View for StateGraph {
    type V = Seq<StateView>;

    closed spec fn view(&self) -> Seq<StateView> {
        state_items(self.states).map_values(|state: State| state@)
    }
}

impl State {
    /// Tests whether every transition of the state leads into a graph of
    /// `states` states.
    pub fn is_resolved(&self, states: usize) -> (r: bool)
        ensures
            r == self@.resolved(states as nat),
    {
        let checks = self.checks();
        let mut i: usize = 0;
        while i < checks.len()
            invariant
                i <= checks.len(),
                checks@ == self@.checks,
                forall|j: int|
                    0 <= j < i ==> transition_resolved((#[trigger] checks@[j]).transition, states as nat),
            decreases checks.len() - i,
        {
            match checks[i].transition {
                Some(transition) => {
                    if transition.target().0 >= states {
                        return false;
                    }
                },
                None => {},
            }
            i += 1;
        }
        match self.timeout {
            Some(timeout) => timeout.transition.target().0 < states,
            None => true,
        }
    }

    /// Tests whether every condition of the state can be configured.
    pub fn has_well_formed_conditions(&self) -> (r: bool)
        ensures
            r == self@.conditions_well_formed(),
    {
        let checks = self.checks();
        let mut i: usize = 0;
        while i < checks.len()
            invariant
                i <= checks.len(),
                checks@ == self@.checks,
                forall|j: int| 0 <= j < i ==> (#[trigger] checks@[j]).data.well_formed(),
            decreases checks.len() - i,
        {
            if !checks[i].data.is_well_formed() {
                return false;
            }
            i += 1;
        }
        true
    }
}

impl StateGraph {
    #[verifier::type_invariant]
    spec fn fits(self) -> bool {
        &&& state_items(self.states).len() <= MAX_STATES
        &&& forall|s: int|
            0 <= s < state_items(self.states).len() ==> (#[trigger] state_items(
                self.states,
            )[s]).fits()
    }

    /// A graph without states.
    pub fn new() -> (graph: StateGraph)
        ensures
            graph@ == Seq::<StateView>::empty(),
    {
        let graph = StateGraph { states: states_new() };
        graph
    }

    /// Appends a state and returns the identifier it is known by from now
    /// on: the number of states added before it. A graph that is full is
    /// left unchanged.
    pub fn add_state(&mut self, state: State) -> (r: Result<StateId, GraphError>)
        ensures
            match r {
                Ok(id) => old(self)@.len() < MAX_STATES && id.0 == old(self)@.len() && final(self)@
                    == old(self)@.push(state@),
                Err(e) => e == GraphError::TooManyStates && old(self)@.len() == MAX_STATES
                    && final(self)@ == old(self)@,
            },
            graph_within_capacity(final(self)@),
    {
        proof {
            use_type_invariant(&*self);
            use_type_invariant(&state);
        }
        let mut states = states_new();
        core::mem::swap(&mut states, &mut self.states);
        let id = StateId(states_as_slice(&states).len());
        let ghost view = state@;
        let pushed = states_push(&mut states, state);
        self.states = states;
        proof {
            use_type_invariant(&*self);
        }
        match pushed {
            Ok(()) => {
                Ok(id)
            },
            Err(_) => Err(GraphError::TooManyStates),
        }
    }

    /// The number of states.
    pub fn len(&self) -> (n: usize)
        ensures
            n == self@.len(),
            graph_within_capacity(self@),
    {
        proof {
            use_type_invariant(self);
        }
        states_as_slice(&self.states).len()
    }

    /// The state known by `id`, if the graph has it.
    pub fn state(&self, id: StateId) -> (r: Option<&State>)
        ensures
            id.0 < self@.len() ==> r is Some && r->Some_0@ == self@[id.0 as int],
            id.0 >= self@.len() ==> r is None,
    {
        let states = states_as_slice(&self.states);
        if id.0 < states.len() {
            Some(&states[id.0])
        } else {
            None
        }
    }

    /// Tests whether every transition in the graph leads to a state of the
    /// graph.
    pub fn is_resolved(&self) -> (r: bool)
        ensures
            r == graph_resolved(self@),
    {
        let states = states_as_slice(&self.states);
        let n = states.len();
        let mut s: usize = 0;
        while s < n
            invariant
                s <= n,
                n == states@.len(),
                states@ == state_items(self.states),
                forall|k: int| 0 <= k < s ==> (#[trigger] self@[k]).resolved(n as nat),
            decreases n - s,
        {
            if !states[s].is_resolved(n) {
                assert(!self@[s as int].resolved(n as nat));
                return false;
            }
            s += 1;
        }
        true
    }

    /// Tests whether no condition in the graph is an inverted interval.
    pub fn has_well_formed_conditions(&self) -> (r: bool)
        ensures
            r == graph_conditions_well_formed(self@),
    {
        let states = states_as_slice(&self.states);
        let n = states.len();
        let mut s: usize = 0;
        while s < n
            invariant
                s <= n,
                n == states@.len(),
                states@ == state_items(self.states),
                forall|k: int| 0 <= k < s ==> (#[trigger] self@[k]).conditions_well_formed(),
            decreases n - s,
        {
            if !states[s].has_well_formed_conditions() {
                assert(!self@[s as int].conditions_well_formed());
                return false;
            }
            s += 1;
        }
        true
    }

    /// Finds what is wrong with the graph, if anything is: `Ok` for a graph
    /// that is fit to fly, and the fault otherwise. A graph cannot be over
    /// capacity, so that is no fault to be found here.
    pub fn validate(&self) -> (r: Result<(), GraphError>)
        ensures
            match r {
                Ok(()) => graph_fault(self@) is None,
                Err(e) => graph_fault(self@) == Some(e),
            },
            r is Ok <==> graph_valid(self@),
    {
        proof {
            use_type_invariant(self);
        }
        if !self.is_resolved() {
            return Err(GraphError::UnresolvedReference);
        }
        if !self.has_well_formed_conditions() {
            return Err(GraphError::InvertedInterval);
        }
        Ok(())
    }
}

} // verus!
