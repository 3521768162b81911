//! The sequencing engine: one tick dispatches the commands that are due,
//! evaluates the checks in order, falls back to the timeout, and enters the
//! next state when a transition was selected.

use crate::clock::{Clock, Timestamp};
use crate::data_acquisition::DataWorkspace;
use crate::data_format::{CommandObject, Seconds, MAX_COMMANDS_PER_STATE};
use crate::graph::{
    graph_fault, Check, Command, GraphError, State, StateGraph, StateId, StateTransition,
    StateView,
};
use crate::model::{
    first_selected, lemma_selected_resolved, Event, MachineView,
};
use vstd::prelude::*;

verus! {

/// The fallback of a state: the transition to take once the state has been
/// active for `time` and no check has selected another.
#[derive(Debug, Copy, Clone, PartialEq, Eq)]
pub struct Timeout {
    pub time: Seconds,
    pub transition: StateTransition,
}

impl Timeout {
    /// A timeout that takes `transition` once `time` has passed in its
    /// state.
    pub fn new(time: Seconds, transition: StateTransition) -> (timeout: Self)
        ensures
            timeout.time == time,
            timeout.transition == transition,
    {
        Self { time, transition }
    }
}

/// What keeps an engine from starting on `graph` in `begin`, if anything
/// does: what is wrong with the graph, or else that the graph lacks `begin`.
pub open spec fn start_fault(graph: Seq<StateView>, begin: StateId) -> Option<GraphError> {
    match graph_fault(graph) {
        Some(fault) => Some(fault),
        None => if begin.0 < graph.len() {
            None
        } else {
            Some(GraphError::UnresolvedReference)
        },
    }
}

/// What one tick did.
#[derive(Debug, Copy, Clone, PartialEq, Eq)]
pub struct TickReport {
    /// For each command slot of the state the tick began in, the object to
    /// set if the command in that slot fired, in the order of the slots.
    pub dispatched: [Option<CommandObject>; MAX_COMMANDS_PER_STATE],
    /// The transition that was applied, if one was.
    pub event: Option<Event>,
}

/// The sequencing engine. It walks a graph it does not own, and keeps the
/// state it is in, the instant it entered that state, and which of that
/// state's commands it has dispatched since.
pub struct StateMachine<'a> {
    graph: &'a StateGraph,
    current_state: StateId,
    start_time: Timestamp,
    /// The instant the current state was activated.
    last_transition_time: Timestamp,
    was_executed: [bool; MAX_COMMANDS_PER_STATE],
}

impl<'a> View for StateMachine<'a> {
    type V = MachineView;

    closed spec fn view(&self) -> MachineView {
        MachineView {
            graph: self.graph@,
            current_state: self.current_state,
            start_time: self.start_time,
            last_transition_time: self.last_transition_time,
            was_executed: self.was_executed@,
        }
    }
}

impl<'a> StateMachine<'a> {
    #[verifier::type_invariant]
    spec fn inv(self) -> bool {
        self@.wf()
    }

    /// Starts an engine on `graph` in the state `begin`, at the instant the
    /// clock shows.
    ///
    /// The graph is validated first, so that what is wrong with it is found
    /// here and not in flight: the engine starts only on a graph in which
    /// every transition resolves and no interval is inverted, and only in a
    /// state the graph has.
    pub fn new(graph: &'a StateGraph, begin: StateId, clock: &Clock) -> (r: Result<
        StateMachine<'a>,
        GraphError,
    >)
        ensures
            match r {
                Ok(machine) => start_fault(graph@, begin) is None && machine@
                    == MachineView::initial(graph@, begin, clock@),
                Err(e) => start_fault(graph@, begin) == Some(e),
            },
            r matches Ok(machine) ==> machine@.wf(),
    {
        match graph.validate() {
            Err(e) => Err(e),
            Ok(()) => {
                if begin.0 >= graph.len() {
                    return Err(GraphError::UnresolvedReference);
                }
                let time = clock.now();
                let machine = StateMachine {
                    graph,
                    current_state: begin,
                    start_time: time,
                    last_transition_time: time,
                    was_executed: [false; MAX_COMMANDS_PER_STATE],
                };
                assert(machine@.was_executed =~= MachineView::initial(
                    graph@,
                    begin,
                    clock@,
                ).was_executed);
                Ok(machine)
            },
        }
    }

    /// One tick: dispatches the commands of the current state that are due,
    /// evaluates its checks in order, falls back to its timeout, and enters
    /// the destination if a transition was selected.
    pub fn execute(&mut self, clock: &Clock, data: &DataWorkspace) -> (report: TickReport)
        ensures
            final(self)@ == old(self)@.tick(clock@, *data),
            report.dispatched@ == old(self)@.dispatched(clock@),
            report.event == old(self)@.event(clock@, *data),
            old(self)@.wf(),
            final(self)@.wf(),
    {
        proof {
            use_type_invariant(&*self);
        }
        let (dispatched, selected) = self.execute_state(clock, data);
        let event = match selected {
            Some(transition) => {
                proof {
                    lemma_selected_resolved(old(self)@, clock@, *data);
                }
                Some(self.transition(transition, clock))
            },
            None => None,
        };
        proof {
            use_type_invariant(&*self);
        }
        TickReport { dispatched, event }
    }

    /// The first three steps of a tick: dispatch, checks, timeout. Returns
    /// what was dispatched and the transition that was selected.
    fn execute_state(&mut self, clock: &Clock, data: &DataWorkspace) -> (r: (
        [Option<CommandObject>; MAX_COMMANDS_PER_STATE],
        Option<StateTransition>,
    ))
        ensures
            final(self)@ == old(self)@.after_dispatch(clock@),
            r.0@ == old(self)@.dispatched(clock@),
            r.1 == old(self)@.selected(clock@, *data),
    {
        proof {
            use_type_invariant(&*self);
        }
        let ghost before = self@;
        let state = self.state();

        // Dispatch the commands that are due, in declared order.
        let commands = state.commands();
        let mut dispatched: [Option<CommandObject>; MAX_COMMANDS_PER_STATE] = [None;
            MAX_COMMANDS_PER_STATE];
        let mut i: usize = 0;
        while i < commands.len()
            invariant
                i <= commands.len() <= MAX_COMMANDS_PER_STATE,
                before.wf(),
                commands@ == before.state().commands,
                self@.graph == before.graph,
                self@.current_state == before.current_state,
                self@.start_time == before.start_time,
                self@.last_transition_time == before.last_transition_time,
                self@.was_executed.len() == MAX_COMMANDS_PER_STATE,
                forall|j: int|
                    0 <= j < i ==> self@.was_executed[j] == (before.was_executed[j] || before.fires(
                        j,
                        clock@,
                    )),
                forall|j: int|
                    i <= j < MAX_COMMANDS_PER_STATE ==> self@.was_executed[j]
                        == before.was_executed[j],
                forall|j: int|
                    0 <= j < i ==> dispatched@[j] == before.dispatched(clock@)[j],
                forall|j: int| i <= j < MAX_COMMANDS_PER_STATE ==> dispatched@[j] is None,
            decreases commands.len() - i,
        {
            let fired = self.execute_command(i, &commands[i], clock);
            dispatched[i] = fired;
            i += 1;
        }
        assert(self@.was_executed =~= before.after_dispatch(clock@).was_executed);

        // Evaluate the checks in declared order; the first to select wins.
        let checks = state.checks();
        let mut k: usize = 0;
        while k < checks.len()
            invariant
                k <= checks.len(),
                checks@ == before.state().checks,
                before == old(self)@,
                self@ == before.after_dispatch(clock@),
                dispatched@ == before.dispatched(clock@),
                first_selected(checks@, *data, 0) == first_selected(checks@, *data, k as int),
            decreases checks.len() - k,
        {
            if let Some(transition) = self.execute_check(&checks[k], data) {
                return (dispatched, Some(transition));
            }
            k += 1;
        }

        // No check selected a transition: fall back to the timeout.
        let timed_out = match state.timeout() {
            Some(timeout) => {
                if self.last_transition_time.elapsed(clock).has_reached(timeout.time) {
                    Some(timeout.transition)
                } else {
                    None
                }
            },
            None => None,
        };
        (dispatched, timed_out)
    }

    /// Dispatches the command in slot `index` if it is due: returns the
    /// object to set and marks the slot, or returns nothing and changes
    /// nothing.
    fn execute_command(&mut self, index: usize, command: &Command, clock: &Clock) -> (fired: Option<
        CommandObject,
    >)
        requires
            index < old(self)@.state().commands.len(),
            *command == old(self)@.state().commands[index as int],
        ensures
            fired == (if old(self)@.fires(index as int, clock@) {
                Some(command.object)
            } else {
                None
            }),
            final(self)@ == (MachineView {
                was_executed: old(self)@.was_executed.update(
                    index as int,
                    old(self)@.was_executed[index as int] || old(self)@.fires(index as int, clock@),
                ),
                ..old(self)@
            }),
    {
        proof {
            use_type_invariant(&*self);
        }
        if !self.was_executed[index] {
            if self.last_transition_time.elapsed(clock).has_reached(command.delay) {
                self.was_executed[index] = true;
                return Some(command.object);
            }
        }
        assert(self@.was_executed =~= old(self)@.was_executed.update(
            index as int,
            old(self)@.was_executed[index as int],
        ));
        None
    }

    /// Evaluates one check on the current readings: returns its transition
    /// if its condition holds and it carries one.
    fn execute_check(&self, check: &Check, data: &DataWorkspace) -> (selected: Option<
        StateTransition,
    >)
        ensures
            selected == (if check.selects(*data) {
                check.transition
            } else {
                None
            }),
    {
        let value = data.get_object(check.data.kind());
        let satisfied = check.data.evaluate(value);
        if satisfied {
            check.transition
        } else {
            None
        }
    }

    /// Applies a transition: enters its destination at the instant the
    /// clock shows, with none of the destination's commands dispatched, and
    /// returns the event that reports the move.
    fn transition(&mut self, transition: StateTransition, clock: &Clock) -> (event: Event)
        requires
            transition.destination().0 < old(self)@.graph.len(),
        ensures
            final(self)@ == old(self)@.enter(transition, clock@),
            event == transition.event_from(old(self)@.current_state),
    {
        proof {
            use_type_invariant(&*self);
        }
        let from = self.current_state;
        let (event, new_state) = match transition {
            StateTransition::Abort(state) => (Event::Aborted { from, to: state }, state),
            StateTransition::Transition(state) => (Event::Transitioned { from, to: state }, state),
        };

        // Enter the destination: new state, new entry time, no command dispatched.
        self.current_state = new_state;
        self.last_transition_time = clock.now();
        self.was_executed = [false; MAX_COMMANDS_PER_STATE];
        assert(self@.was_executed =~= old(self)@.enter(transition, clock@).was_executed);
        event
    }

    /// The state the engine is in, as the graph holds it.
    fn state(&self) -> (state: &'a State)
        ensures
            state@ == self@.state(),
    {
        proof {
            use_type_invariant(self);
        }
        match self.graph.state(self.current_state) {
            Some(state) => state,
            None => vstd::pervasive::unreached(),
        }
    }

    /// The graph the engine walks.
    pub fn graph(&self) -> (graph: &'a StateGraph)
        ensures
            graph@ == self@.graph,
    {
        self.graph
    }

    /// The identifier of the state the engine is in.
    pub fn current_state(&self) -> (id: StateId)
        ensures
            id == self@.current_state,
    {
        self.current_state
    }

    /// The instant the engine was started.
    pub fn start_time(&self) -> (time: Timestamp)
        ensures
            time == self@.start_time,
    {
        self.start_time
    }

    /// The instant the current state was entered.
    pub fn last_transition_time(&self) -> (time: Timestamp)
        ensures
            time == self@.last_transition_time,
    {
        self.last_transition_time
    }

    /// Whether the command in slot `index` of the current state has been
    /// dispatched since the state was entered. A slot the engine does not
    /// have holds no command, and nothing was dispatched from it.
    pub fn was_executed(&self, index: usize) -> (done: bool)
        ensures
            done == (index < self@.was_executed.len() && self@.was_executed[index as int]),
    {
        if index < MAX_COMMANDS_PER_STATE {
            self.was_executed[index]
        } else {
            false
        }
    }
}

} // verus!
