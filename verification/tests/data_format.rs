use flight_sequencer::data_acquisition::DataWorkspace;
use flight_sequencer::data_format::{
    CheckData, CheckKind, CommandKind, CommandObject, FloatCondition, NativeFlagCondition,
    ObjectState, PyroContinuityCondition, Seconds, MAX_CHECKS_PER_STATE, MAX_COMMANDS_PER_STATE,
    MAX_STATES,
};

#[test]
fn capacities_are_as_sized() {
    assert_eq!(MAX_STATES, 16);
    assert_eq!(MAX_CHECKS_PER_STATE, 3);
    assert_eq!(MAX_COMMANDS_PER_STATE, 3);
}

#[test]
fn interval_is_closed_at_both_bounds() {
    let interval = FloatCondition::Between { upper_bound: 2000, lower_bound: -500 };
    assert!(interval.evaluate(-500));
    assert!(interval.evaluate(2000));
    assert!(interval.evaluate(0));
    assert!(!interval.evaluate(-501));
    assert!(!interval.evaluate(2001));
    assert!(!interval.evaluate(i32::MIN));
    assert!(!interval.evaluate(i32::MAX));
}

#[test]
fn interval_agrees_with_its_bounds_everywhere_nearby() {
    let interval = FloatCondition::Between { upper_bound: 7, lower_bound: 3 };
    for value in -5..15 {
        assert_eq!(interval.evaluate(value), 3 <= value && value <= 7, "at {}", value);
    }
}

#[test]
fn interval_of_one_point_holds_of_that_point_only() {
    let point = FloatCondition::Between { upper_bound: 42, lower_bound: 42 };
    assert!(point.evaluate(42));
    assert!(!point.evaluate(41));
    assert!(!point.evaluate(43));
    assert!(point.is_ordered());
}

#[test]
fn inverted_interval_holds_of_nothing_and_is_not_ordered() {
    let inverted = FloatCondition::Between { upper_bound: 3, lower_bound: 7 };
    for value in 0..10 {
        assert!(!inverted.evaluate(value));
    }
    assert!(!inverted.is_ordered());
    assert!(!CheckData::Altitude(inverted).is_well_formed());
}

#[test]
fn greater_and_less_are_strict() {
    assert!(FloatCondition::GreaterThan(100).evaluate(101));
    assert!(!FloatCondition::GreaterThan(100).evaluate(100));
    assert!(!FloatCondition::GreaterThan(100).evaluate(99));
    assert!(FloatCondition::LessThan(100).evaluate(99));
    assert!(!FloatCondition::LessThan(100).evaluate(100));
    assert!(!FloatCondition::LessThan(100).evaluate(101));
    assert!(FloatCondition::GreaterThan(100).is_ordered());
    assert!(FloatCondition::LessThan(100).is_ordered());
}

#[test]
fn check_data_knows_its_quantity() {
    assert_eq!(CheckData::Altitude(FloatCondition::LessThan(0)).kind(), CheckKind::Altitude);
    assert_eq!(CheckData::ApogeeFlag(NativeFlagCondition(true)).kind(), CheckKind::ApogeeFlag);
    assert_eq!(
        CheckData::Pyro1Continuity(PyroContinuityCondition(true)).kind(),
        CheckKind::Pyro1Continuity
    );
    assert_eq!(
        CheckData::Pyro2Continuity(PyroContinuityCondition(true)).kind(),
        CheckKind::Pyro2Continuity
    );
    assert_eq!(
        CheckData::Pyro3Continuity(PyroContinuityCondition(false)).kind(),
        CheckKind::Pyro3Continuity
    );
}

#[test]
fn flag_checks_compare_for_equality() {
    let apogee = CheckData::ApogeeFlag(NativeFlagCondition(true));
    assert!(apogee.evaluate(ObjectState::Flag(true)));
    assert!(!apogee.evaluate(ObjectState::Flag(false)));
    let no_apogee = CheckData::ApogeeFlag(NativeFlagCondition(false));
    assert!(no_apogee.evaluate(ObjectState::Flag(false)));
    assert!(!no_apogee.evaluate(ObjectState::Flag(true)));
    for expected in [true, false] {
        for actual in [true, false] {
            let condition = PyroContinuityCondition(expected);
            assert_eq!(
                CheckData::Pyro1Continuity(condition).evaluate(ObjectState::Flag(actual)),
                expected == actual
            );
            assert_eq!(
                CheckData::Pyro2Continuity(condition).evaluate(ObjectState::Flag(actual)),
                expected == actual
            );
            assert_eq!(
                CheckData::Pyro3Continuity(condition).evaluate(ObjectState::Flag(actual)),
                expected == actual
            );
        }
    }
}

#[test]
fn altitude_check_evaluates_its_condition() {
    let low = CheckData::Altitude(FloatCondition::LessThan(0));
    assert!(low.evaluate(ObjectState::Float(-1)));
    assert!(!low.evaluate(ObjectState::Float(0)));
    let band = CheckData::Altitude(FloatCondition::Between { upper_bound: 10, lower_bound: 5 });
    assert!(band.evaluate(ObjectState::Float(5)));
    assert!(band.evaluate(ObjectState::Float(10)));
    assert!(!band.evaluate(ObjectState::Float(11)));
    assert!(band.is_well_formed());
}

#[test]
fn readings_answer_the_quantity_they_are_reported_for() {
    assert!(ObjectState::Float(1).is_answer_to(CheckKind::Altitude));
    assert!(!ObjectState::Flag(true).is_answer_to(CheckKind::Altitude));
    assert!(!ObjectState::Short(1).is_answer_to(CheckKind::Altitude));
    for kind in [
        CheckKind::ApogeeFlag,
        CheckKind::Pyro1Continuity,
        CheckKind::Pyro2Continuity,
        CheckKind::Pyro3Continuity,
    ] {
        assert!(ObjectState::Flag(false).is_answer_to(kind));
        assert!(!ObjectState::Float(1).is_answer_to(kind));
        assert!(!ObjectState::Short(1).is_answer_to(kind));
    }
}

#[test]
fn workspace_reports_each_quantity_in_its_kind() {
    let data = DataWorkspace {
        altitude: 123_456,
        apogee_flag: true,
        pyro1_continuity: false,
        pyro2_continuity: true,
        pyro3_continuity: false,
    };
    assert_eq!(data.get_object(CheckKind::Altitude), ObjectState::Float(123_456));
    assert_eq!(data.get_object(CheckKind::ApogeeFlag), ObjectState::Flag(true));
    assert_eq!(data.get_object(CheckKind::Pyro1Continuity), ObjectState::Flag(false));
    assert_eq!(data.get_object(CheckKind::Pyro2Continuity), ObjectState::Flag(true));
    assert_eq!(data.get_object(CheckKind::Pyro3Continuity), ObjectState::Flag(false));
    for kind in [
        CheckKind::Altitude,
        CheckKind::ApogeeFlag,
        CheckKind::Pyro1Continuity,
        CheckKind::Pyro2Continuity,
        CheckKind::Pyro3Continuity,
    ] {
        assert!(data.get_object(kind).is_answer_to(kind));
    }
}

#[test]
fn with_bool_pairs_switched_actuators() {
    assert_eq!(CommandKind::Pyro1.with_bool(true), CommandObject::Pyro1(true));
    assert_eq!(CommandKind::Pyro2.with_bool(false), CommandObject::Pyro2(false));
    assert_eq!(CommandKind::Pyro3.with_bool(true), CommandObject::Pyro3(true));
    assert_eq!(CommandKind::Beacon.with_bool(false), CommandObject::Beacon(false));
}

#[test]
fn with_u16_pairs_the_data_rate() {
    assert_eq!(CommandKind::DataRate.with_u16(0), CommandObject::DataRate(0));
    assert_eq!(CommandKind::DataRate.with_u16(u16::MAX), CommandObject::DataRate(u16::MAX));
}

#[test]
fn with_state_follows_the_kind_of_value() {
    assert_eq!(
        CommandKind::Beacon.with_state(ObjectState::Flag(true)),
        CommandObject::Beacon(true)
    );
    assert_eq!(
        CommandKind::Pyro2.with_state(ObjectState::Flag(false)),
        CommandObject::Pyro2(false)
    );
    assert_eq!(
        CommandKind::DataRate.with_state(ObjectState::Short(250)),
        CommandObject::DataRate(250)
    );
}

#[test]
fn can_take_tells_which_values_an_actuator_accepts() {
    for kind in [CommandKind::Pyro1, CommandKind::Pyro2, CommandKind::Pyro3, CommandKind::Beacon] {
        assert!(kind.can_take(ObjectState::Flag(true)));
        assert!(!kind.can_take(ObjectState::Short(1)));
        assert!(!kind.can_take(ObjectState::Float(1)));
    }
    assert!(CommandKind::DataRate.can_take(ObjectState::Short(1)));
    assert!(!CommandKind::DataRate.can_take(ObjectState::Flag(true)));
    assert!(!CommandKind::DataRate.can_take(ObjectState::Float(1)));
}

#[test]
fn durations_compare_by_length() {
    assert!(Seconds(5000).has_reached(Seconds(5000)));
    assert!(Seconds(5001).has_reached(Seconds(5000)));
    assert!(!Seconds(4999).has_reached(Seconds(5000)));
    assert!(Seconds(0).has_reached(Seconds(0)));
}
