use flight_sequencer::data_format::{
    CheckData, CommandObject, FloatCondition, NativeFlagCondition, PyroContinuityCondition,
    Seconds, MAX_STATES,
};
use flight_sequencer::graph::{
    Check, Command, GraphError, State, StateGraph, StateId, StateTransition,
};
use flight_sequencer::state_machine::Timeout;

fn apogee_check(to: usize) -> Check {
    Check::new(
        CheckData::ApogeeFlag(NativeFlagCondition(true)),
        Some(StateTransition::Transition(StateId(to))),
    )
}

#[test]
fn new_state_is_empty() {
    let state = State::new();
    assert!(state.checks().is_empty());
    assert!(state.commands().is_empty());
    assert_eq!(state.timeout(), None);
}

#[test]
fn state_keeps_checks_in_declared_order() {
    let first = Check::new(CheckData::Altitude(FloatCondition::GreaterThan(10)), None);
    let second = apogee_check(4);
    let third = Check::new(
        CheckData::Pyro2Continuity(PyroContinuityCondition(false)),
        Some(StateTransition::Abort(StateId(9))),
    );
    let mut state = State::new();
    assert_eq!(state.add_check(first), Ok(()));
    assert_eq!(state.checks(), &[first][..]);
    assert_eq!(state.add_check(second), Ok(()));
    assert_eq!(state.add_check(third), Ok(()));
    assert_eq!(state.checks(), &[first, second, third][..]);
    assert!(state.commands().is_empty());
}

#[test]
fn fourth_check_is_refused_and_changes_nothing() {
    let mut state = State::new();
    for to in 0..3 {
        assert_eq!(state.add_check(apogee_check(to)), Ok(()));
    }
    assert_eq!(state.add_check(apogee_check(7)), Err(GraphError::TooManyChecks));
    assert_eq!(
        state.checks(),
        &[apogee_check(0), apogee_check(1), apogee_check(2)][..]
    );
}

#[test]
fn state_keeps_commands_in_declared_order() {
    let beacon = Command::new(CommandObject::Beacon(true), Seconds(0));
    let rate = Command::new(CommandObject::DataRate(40), Seconds(1500));
    let mut state = State::new();
    assert_eq!(state.add_command(beacon), Ok(()));
    assert_eq!(state.add_command(rate), Ok(()));
    assert_eq!(state.commands(), &[beacon, rate][..]);
    assert!(state.checks().is_empty());
}

#[test]
fn fourth_command_is_refused_and_changes_nothing() {
    let mut state = State::new();
    let commands = [
        Command::new(CommandObject::Pyro1(true), Seconds(0)),
        Command::new(CommandObject::Pyro2(true), Seconds(10)),
        Command::new(CommandObject::Pyro3(true), Seconds(20)),
    ];
    for command in commands {
        assert_eq!(state.add_command(command), Ok(()));
    }
    assert_eq!(
        state.add_command(Command::new(CommandObject::Beacon(true), Seconds(30))),
        Err(GraphError::TooManyCommands)
    );
    assert_eq!(state.commands(), &commands[..]);
}

#[test]
fn timeout_can_be_set_and_replaced() {
    let mut state = State::new();
    let first = Timeout::new(Seconds(5000), StateTransition::Transition(StateId(1)));
    let second = Timeout::new(Seconds(100), StateTransition::Abort(StateId(2)));
    state.set_timeout(first);
    assert_eq!(state.timeout(), Some(first));
    state.set_timeout(second);
    assert_eq!(state.timeout(), Some(second));
    assert_eq!(second.time, Seconds(100));
    assert_eq!(second.transition, StateTransition::Abort(StateId(2)));
}

#[test]
fn transition_names_its_destination() {
    assert_eq!(StateTransition::Transition(StateId(3)).target(), StateId(3));
    assert_eq!(StateTransition::Abort(StateId(5)).target(), StateId(5));
}

#[test]
fn states_are_known_by_their_place() {
    let mut graph = StateGraph::new();
    assert_eq!(graph.len(), 0);
    let mut with_check = State::new();
    with_check.add_check(apogee_check(0)).unwrap();
    assert_eq!(graph.add_state(State::new()), Ok(StateId(0)));
    assert_eq!(graph.add_state(with_check), Ok(StateId(1)));
    assert_eq!(graph.add_state(State::new()), Ok(StateId(2)));
    assert_eq!(graph.len(), 3);
    assert!(graph.state(StateId(0)).unwrap().checks().is_empty());
    assert_eq!(graph.state(StateId(1)).unwrap().checks(), &[apogee_check(0)][..]);
    assert!(graph.state(StateId(2)).unwrap().checks().is_empty());
    assert!(graph.state(StateId(3)).is_none());
}

#[test]
fn seventeenth_state_is_refused_and_changes_nothing() {
    let mut graph = StateGraph::new();
    for place in 0..MAX_STATES {
        assert_eq!(graph.add_state(State::new()), Ok(StateId(place)));
    }
    assert_eq!(graph.len(), 16);
    let mut extra = State::new();
    extra.add_check(apogee_check(0)).unwrap();
    assert_eq!(graph.add_state(extra), Err(GraphError::TooManyStates));
    assert_eq!(graph.len(), 16);
    assert!(graph.state(StateId(15)).unwrap().checks().is_empty());
    assert!(graph.state(StateId(16)).is_none());
}

#[test]
fn empty_graph_is_valid() {
    let graph = StateGraph::new();
    assert!(graph.is_resolved());
    assert!(graph.has_well_formed_conditions());
    assert_eq!(graph.validate(), Ok(()));
}

#[test]
fn cycles_are_accepted() {
    let mut hold = State::new();
    hold.add_check(apogee_check(0)).unwrap();
    hold.set_timeout(Timeout::new(Seconds(10), StateTransition::Transition(StateId(1))));
    let mut retry = State::new();
    retry.add_check(apogee_check(0)).unwrap();
    let mut graph = StateGraph::new();
    graph.add_state(hold).unwrap();
    graph.add_state(retry).unwrap();
    assert!(graph.is_resolved());
    assert_eq!(graph.validate(), Ok(()));
}

#[test]
fn check_that_leads_nowhere_is_unresolved() {
    let mut state = State::new();
    state.add_check(apogee_check(0)).unwrap();
    state.add_check(apogee_check(1)).unwrap();
    assert!(state.is_resolved(2));
    assert!(!state.is_resolved(1));
    let mut graph = StateGraph::new();
    graph.add_state(state).unwrap();
    assert!(!graph.is_resolved());
    assert_eq!(graph.validate(), Err(GraphError::UnresolvedReference));
}

#[test]
fn timeout_that_leads_nowhere_is_unresolved() {
    let mut state = State::new();
    state.set_timeout(Timeout::new(Seconds(1), StateTransition::Abort(StateId(1))));
    assert!(state.is_resolved(2));
    assert!(!state.is_resolved(1));
    let mut graph = StateGraph::new();
    graph.add_state(state).unwrap();
    assert_eq!(graph.validate(), Err(GraphError::UnresolvedReference));
    graph.add_state(State::new()).unwrap();
    assert_eq!(graph.validate(), Ok(()));
}

#[test]
fn check_without_transition_needs_no_destination() {
    let mut state = State::new();
    state
        .add_check(Check::new(CheckData::Altitude(FloatCondition::LessThan(0)), None))
        .unwrap();
    assert!(state.is_resolved(0));
}

#[test]
fn inverted_interval_is_a_configuration_error() {
    let inverted = CheckData::Altitude(FloatCondition::Between { upper_bound: 1, lower_bound: 2 });
    let mut state = State::new();
    state
        .add_check(Check::new(CheckData::Altitude(FloatCondition::GreaterThan(5)), None))
        .unwrap();
    assert!(state.has_well_formed_conditions());
    state.add_check(Check::new(inverted, None)).unwrap();
    assert!(!state.has_well_formed_conditions());
    let mut graph = StateGraph::new();
    graph.add_state(State::new()).unwrap();
    graph.add_state(state).unwrap();
    assert!(graph.is_resolved());
    assert!(!graph.has_well_formed_conditions());
    assert_eq!(graph.validate(), Err(GraphError::InvertedInterval));
}

#[test]
fn unresolved_reference_is_reported_before_inverted_interval() {
    let inverted = CheckData::Altitude(FloatCondition::Between { upper_bound: 1, lower_bound: 2 });
    let mut first = State::new();
    first.add_check(Check::new(inverted, None)).unwrap();
    let mut second = State::new();
    second.add_check(apogee_check(2)).unwrap();
    let mut graph = StateGraph::new();
    graph.add_state(first).unwrap();
    graph.add_state(second).unwrap();
    assert_eq!(graph.validate(), Err(GraphError::UnresolvedReference));
}
