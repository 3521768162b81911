//! What a tick does, as mathematics.
//!
//! The engine is described by a view of its state and by functions from one
//! view to the next. The executable engine is proved to follow them, and the
//! guarantees of the sequencer are proved about them.

use crate::clock::Timestamp;
use crate::data_acquisition::DataWorkspace;
use crate::data_format::{CommandObject, Seconds, MAX_COMMANDS_PER_STATE};
use crate::graph::{graph_valid, Check, StateId, StateTransition, StateView};
use vstd::prelude::*;

verus! {

/// What is reported when a transition is applied.
#[derive(Debug, Copy, Clone, PartialEq, Eq)]
pub enum Event {
    /// A fault forced the engine from one state to another.
    Aborted { from: StateId, to: StateId },
    /// The engine advanced from one state to another.
    Transitioned { from: StateId, to: StateId },
}

impl StateTransition {
    /// The event that reports this transition when it is taken in `from`.
    pub open spec fn event_from(self, from: StateId) -> Event {
        match self {
            StateTransition::Abort(to) => Event::Aborted { from, to },
            StateTransition::Transition(to) => Event::Transitioned { from, to },
        }
    }
}

impl Check {
    /// Whether the check's condition holds of the current readings.
    pub open spec fn satisfied(self, data: DataWorkspace) -> bool {
        self.data.satisfied_by(data.value_of(self.data.kind_of()))
    }

    /// Whether the check selects a transition: its condition holds and it
    /// carries one.
    pub open spec fn selects(self, data: DataWorkspace) -> bool {
        self.satisfied(data) && self.transition is Some
    }
}

/// The transition of the first check at or after position `from` that
/// selects one, if there is such a check.
pub open spec fn first_selected(checks: Seq<Check>, data: DataWorkspace, from: int) -> Option<
    StateTransition,
>
    decreases checks.len() - from,
{
    if from < 0 || from >= checks.len() {
        None
    } else if checks[from].selects(data) {
        checks[from].transition
    } else {
        first_selected(checks, data, from + 1)
    }
}

/// The state of the engine, to the contracts.
pub struct MachineView {
    /// The graph the engine walks.
    pub graph: Seq<StateView>,
    /// The state the engine is in.
    pub current_state: StateId,
    /// The instant the engine was started.
    pub start_time: Timestamp,
    /// The instant the current state was entered.
    pub last_transition_time: Timestamp,
    /// For each command slot of the current state, whether the command in it
    /// has been dispatched since the state was entered.
    pub was_executed: Seq<bool>,
}

impl MachineView {
    /// The engine as it is started in `begin` at the instant `now`.
    pub open spec fn initial(graph: Seq<StateView>, begin: StateId, now: Timestamp) -> MachineView {
        MachineView {
            graph,
            current_state: begin,
            start_time: now,
            last_transition_time: now,
            was_executed: Seq::new(MAX_COMMANDS_PER_STATE as nat, |i: int| false),
        }
    }

    /// What holds of every engine: its graph is valid, it is in a state of
    /// the graph, and it keeps one flag per command slot.
    pub open spec fn wf(self) -> bool {
        &&& graph_valid(self.graph)
        &&& self.current_state.0 < self.graph.len()
        &&& self.was_executed.len() == MAX_COMMANDS_PER_STATE
    }

    /// The state the engine is in.
    pub open spec fn state(self) -> StateView {
        self.graph[self.current_state.0 as int]
    }

    /// The time the current state has been active at the instant `now`.
    pub open spec fn elapsed(self, now: Timestamp) -> Seconds {
        self.last_transition_time.until(now)
    }

    /// Whether a tick at `now` dispatches the command in slot `index`: there
    /// is such a command, it has not been dispatched since the state was
    /// entered, and its delay has passed.
    pub open spec fn fires(self, index: int, now: Timestamp) -> bool {
        &&& 0 <= index < self.state().commands.len()
        &&& index < self.was_executed.len()
        &&& !self.was_executed[index]
        &&& self.elapsed(now).reaches(self.state().commands[index].delay)
    }

    /// What a tick at `now` dispatches, slot by slot.
    pub open spec fn dispatched(self, now: Timestamp) -> Seq<Option<CommandObject>> {
        Seq::new(
            MAX_COMMANDS_PER_STATE as nat,
            |i: int|
                if self.fires(i, now) {
                    Some(self.state().commands[i].object)
                } else {
                    None
                },
        )
    }

    /// The engine after the dispatch of a tick at `now`: the commands that
    /// fired are marked, nothing else has changed.
    pub open spec fn after_dispatch(self, now: Timestamp) -> MachineView {
        MachineView {
            was_executed: Seq::new(
                self.was_executed.len(),
                |i: int| self.was_executed[i] || self.fires(i, now),
            ),
            ..self
        }
    }

    /// The transition the timeout of the current state asks for at `now`.
    pub open spec fn timed_out(self, now: Timestamp) -> Option<StateTransition> {
        match self.state().timeout {
            Some(timeout) => if self.elapsed(now).reaches(timeout.time) {
                Some(timeout.transition)
            } else {
                None
            },
            None => None,
        }
    }

    /// The transition a tick at `now` selects: that of the first check that
    /// selects one, else that of the timeout if it has run out.
    pub open spec fn selected(self, now: Timestamp, data: DataWorkspace) -> Option<
        StateTransition,
    > {
        match first_selected(self.state().checks, data, 0) {
            Some(transition) => Some(transition),
            None => self.timed_out(now),
        }
    }

    /// The engine after it has taken `transition` at `now`: it is in the
    /// destination, the destination counts as entered at `now`, and none of
    /// its commands counts as dispatched.
    pub open spec fn enter(self, transition: StateTransition, now: Timestamp) -> MachineView {
        MachineView {
            current_state: transition.destination(),
            last_transition_time: now,
            was_executed: Seq::new(MAX_COMMANDS_PER_STATE as nat, |i: int| false),
            ..self
        }
    }

    /// The engine after a tick at `now` on the readings `data`.
    pub open spec fn tick(self, now: Timestamp, data: DataWorkspace) -> MachineView {
        match self.selected(now, data) {
            Some(transition) => self.after_dispatch(now).enter(transition, now),
            None => self.after_dispatch(now),
        }
    }

    /// The event a tick at `now` on the readings `data` reports.
    pub open spec fn event(self, now: Timestamp, data: DataWorkspace) -> Option<Event> {
        match self.selected(now, data) {
            Some(transition) => Some(transition.event_from(self.current_state)),
            None => None,
        }
    }
}

/// Where `first_selected` finds a transition, it is that of a check that
/// selects it, and no check between `from` and that one selects any.
pub proof fn lemma_first_selected_some(checks: Seq<Check>, data: DataWorkspace, from: int)
    requires
        0 <= from,
        first_selected(checks, data, from) is Some,
    ensures
        exists|k: int|
            from <= k < checks.len() && (#[trigger] checks[k]).selects(data) && checks[k].transition
                == first_selected(checks, data, from) && forall|j: int|
                from <= j < k ==> !(#[trigger] checks[j]).selects(data),
    decreases checks.len() - from,
{
    if !checks[from].selects(data) {
        lemma_first_selected_some(checks, data, from + 1);
    }
}

/// `first_selected` finds nothing exactly where no check at or after `from`
/// selects a transition.
pub proof fn lemma_first_selected_none(checks: Seq<Check>, data: DataWorkspace, from: int)
    requires
        0 <= from,
    ensures
        first_selected(checks, data, from) is None <==> forall|j: int|
            from <= j < checks.len() ==> !(#[trigger] checks[j]).selects(data),
    decreases checks.len() - from,
{
    if from < checks.len() {
        lemma_first_selected_none(checks, data, from + 1);
    }
}

/// A transition that a tick selects leads to a state of the graph.
pub proof fn lemma_selected_resolved(m: MachineView, now: Timestamp, data: DataWorkspace)
    requires
        m.wf(),
        m.selected(now, data) is Some,
    ensures
        m.selected(now, data)->Some_0.destination().0 < m.graph.len(),
{
    if first_selected(m.state().checks, data, 0) is Some {
        lemma_first_selected_some(m.state().checks, data, 0);
    }
}

/// A tick leaves a well-formed engine well formed.
pub proof fn lemma_tick_wf(m: MachineView, now: Timestamp, data: DataWorkspace)
    requires
        m.wf(),
    ensures
        m.tick(now, data).wf(),
{
    if m.selected(now, data) is Some {
        lemma_selected_resolved(m, now, data);
    }
}

} // verus!
