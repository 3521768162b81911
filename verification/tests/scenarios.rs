use flight_sequencer::clock::{Clock, Timestamp};
use flight_sequencer::data_acquisition::DataWorkspace;
use flight_sequencer::data_format::{CheckData, CommandObject, FloatCondition, Seconds};
use flight_sequencer::graph::{Check, Command, State, StateGraph, StateId, StateTransition};
use flight_sequencer::model::Event;
use flight_sequencer::state_machine::{StateMachine, Timeout};

fn readings(altitude: i32) -> DataWorkspace {
    DataWorkspace {
        altitude,
        apogee_flag: false,
        pyro1_continuity: false,
        pyro2_continuity: false,
        pyro3_continuity: false,
    }
}

#[test]
fn ascent_times_out_into_descent() {
    let mut ascent = State::new();
    ascent
        .add_check(Check::new(CheckData::Altitude(FloatCondition::LessThan(0)), None))
        .unwrap();
    ascent.set_timeout(Timeout::new(
        Seconds(5000),
        StateTransition::Transition(StateId(1)),
    ));
    let descent = State::new();
    let mut graph = StateGraph::new();
    assert_eq!(graph.add_state(ascent), Ok(StateId(0)));
    assert_eq!(graph.add_state(descent), Ok(StateId(1)));

    let mut clock = Clock::new(Timestamp(0));
    let mut machine = StateMachine::new(&graph, StateId(0), &clock).unwrap();

    clock.observe(Timestamp(4900));
    let report = machine.execute(&clock, &readings(1000));
    assert_eq!(report.event, None);
    assert_eq!(machine.current_state(), StateId(0));
    assert_eq!(machine.last_transition_time(), Timestamp(0));

    clock.observe(Timestamp(5000));
    let report = machine.execute(&clock, &readings(1000));
    assert_eq!(
        report.event,
        Some(Event::Transitioned { from: StateId(0), to: StateId(1) })
    );
    assert_eq!(machine.current_state(), StateId(1));
    assert_eq!(machine.last_transition_time(), Timestamp(5000));
}

#[test]
fn pad_beacon_fires_once() {
    let mut pad = State::new();
    pad.add_command(Command::new(CommandObject::Beacon(true), Seconds(0)))
        .unwrap();
    let mut graph = StateGraph::new();
    graph.add_state(pad).unwrap();

    let mut clock = Clock::new(Timestamp(0));
    let mut machine = StateMachine::new(&graph, StateId(0), &clock).unwrap();

    let report = machine.execute(&clock, &readings(0));
    assert_eq!(
        report.dispatched,
        [Some(CommandObject::Beacon(true)), None, None]
    );
    assert!(machine.was_executed(0));

    for step in 1..20u64 {
        clock.observe(Timestamp(step * 100));
        let report = machine.execute(&clock, &readings(0));
        assert_eq!(report.dispatched, [None, None, None]);
        assert_eq!(report.event, None);
        assert_eq!(machine.current_state(), StateId(0));
    }
}
