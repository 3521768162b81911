//! The values the sequencer reasons about: what a sensor can report, what an
//! actuator can be told, and the conditions a check can place on a reading.
//!
//! Continuous quantities are held in fixed point. A measurement is an `i32`
//! counting thousandths of its unit (an altitude of 1.5 m is `1500`), and a
//! duration is a `u64` counting milliseconds. Conditions only ever compare
//! such numbers, so every predicate here is exact.

use vstd::pervasive::unreached;
use vstd::prelude::*;

verus! {

/// The most states a graph can hold.
pub const MAX_STATES: usize = 16;

/// The most checks one state can hold.
pub const MAX_CHECKS_PER_STATE: usize = 3;

/// The most commands one state can hold.
pub const MAX_COMMANDS_PER_STATE: usize = 3;

/// A duration. The field counts milliseconds, so `Seconds(1500)` is one and a
/// half seconds.
#[derive(Debug, Copy, Clone, PartialEq, Eq)]
pub struct Seconds(pub u64);

impl Seconds {
    /// Whether this duration is at least as long as `other`.
    pub open spec fn reaches(self, other: Seconds) -> bool {
        self.0 >= other.0
    }

    /// Compares two durations: true when `self` is at least as long as `other`.
    pub fn has_reached(&self, other: Seconds) -> (r: bool)
        ensures
            r == self.reaches(other),
    {
        self.0 >= other.0
    }
}

/// The value a flag kept by the sequencer itself is expected to have.
#[derive(Debug, Copy, Clone, PartialEq, Eq)]
pub struct NativeFlagCondition(pub bool);

/// The continuity reading a pyro channel is expected to have.
#[derive(Debug, Copy, Clone, PartialEq, Eq)]
pub struct PyroContinuityCondition(pub bool);

/// A condition on a measurement, which is given in thousandths of its unit.
#[derive(Debug, Copy, Clone, PartialEq, Eq)]
pub enum FloatCondition {
    /// Strictly above the bound.
    GreaterThan(i32),
    /// Strictly below the bound.
    LessThan(i32),
    /// Inside the closed interval from `lower_bound` to `upper_bound`.
    Between { upper_bound: i32, lower_bound: i32 },
}

impl FloatCondition {
    /// Whether the measurement `actual` satisfies the condition. The interval
    /// is closed: both of its bounds satisfy it.
    pub open spec fn holds(self, actual: i32) -> bool {
        match self {
            FloatCondition::GreaterThan(expected) => actual > expected,
            FloatCondition::LessThan(expected) => actual < expected,
            FloatCondition::Between { upper_bound, lower_bound } => lower_bound <= actual
                <= upper_bound,
        }
    }

    /// Whether the bounds are the right way round. An interval whose upper
    /// bound lies below its lower bound holds of no measurement and is a
    /// mistake in the configuration.
    pub open spec fn ordered(self) -> bool {
        match self {
            FloatCondition::Between { upper_bound, lower_bound } => lower_bound <= upper_bound,
            _ => true,
        }
    }

    /// Tests the measurement `actual` against the condition.
    pub fn evaluate(&self, actual: i32) -> (r: bool)
        ensures
            r == self.holds(actual),
            (*self matches FloatCondition::Between { upper_bound, lower_bound } ==> (r <==> lower_bound
                <= actual <= upper_bound)),
    {
        match *self {
            FloatCondition::GreaterThan(expected) => actual > expected,
            FloatCondition::LessThan(expected) => actual < expected,
            FloatCondition::Between { upper_bound, lower_bound } => lower_bound <= actual && actual
                <= upper_bound,
        }
    }

    /// Tests whether the bounds are the right way round.
    pub fn is_ordered(&self) -> (r: bool)
        ensures
            r == self.ordered(),
    {
        match *self {
            FloatCondition::Between { upper_bound, lower_bound } => lower_bound <= upper_bound,
            _ => true,
        }
    }
}

/// The quantities a check can ask about.
#[derive(Debug, Copy, Clone, PartialEq, Eq)]
pub enum CheckKind {
    Altitude,
    ApogeeFlag,
    Pyro1Continuity,
    Pyro2Continuity,
    Pyro3Continuity,
}

/// A value a quantity can have: what a check receives, or what a command
/// sets. Exactly one kind is populated.
#[derive(Debug, Copy, Clone, PartialEq, Eq)]
pub enum ObjectState {
    /// On or off, true or false: a GPIO level, for example.
    Flag(bool),
    /// A measurement, in thousandths of its unit.
    Float(i32),
    /// A small counter, such as a configured data rate.
    Short(u16),
}

impl ObjectState {
    /// Whether this value has the kind that the quantity `kind` is reported
    /// in: a measurement for the altitude, a flag for everything else.
    pub open spec fn answers(self, kind: CheckKind) -> bool {
        match kind {
            CheckKind::Altitude => self is Float,
            _ => self is Flag,
        }
    }

    /// Tests whether this value has the kind that `kind` is reported in.
    pub fn is_answer_to(&self, kind: CheckKind) -> (r: bool)
        ensures
            r == self.answers(kind),
    {
        match kind {
            CheckKind::Altitude => match *self {
                ObjectState::Float(_) => true,
                _ => false,
            },
            _ => match *self {
                ObjectState::Flag(_) => true,
                _ => false,
            },
        }
    }
}

/// A quantity together with the condition its reading must meet.
#[derive(Debug, Copy, Clone, PartialEq, Eq)]
pub enum CheckData {
    Altitude(FloatCondition),
    ApogeeFlag(NativeFlagCondition),
    Pyro1Continuity(PyroContinuityCondition),
    Pyro2Continuity(PyroContinuityCondition),
    Pyro3Continuity(PyroContinuityCondition),
}

impl CheckData {
    /// The quantity this check asks about.
    pub open spec fn kind_of(self) -> CheckKind {
        match self {
            CheckData::Altitude(_) => CheckKind::Altitude,
            CheckData::ApogeeFlag(_) => CheckKind::ApogeeFlag,
            CheckData::Pyro1Continuity(_) => CheckKind::Pyro1Continuity,
            CheckData::Pyro2Continuity(_) => CheckKind::Pyro2Continuity,
            CheckData::Pyro3Continuity(_) => CheckKind::Pyro3Continuity,
        }
    }

    /// Whether the reading `value` satisfies the condition. This is only
    /// meaningful where `value.answers(self.kind_of())`; a reading of another
    /// kind satisfies nothing.
    pub open spec fn satisfied_by(self, value: ObjectState) -> bool {
        match (self, value) {
            (CheckData::Altitude(condition), ObjectState::Float(actual)) => condition.holds(actual),
            (CheckData::ApogeeFlag(expected), ObjectState::Flag(actual)) => expected.0 == actual,
            (CheckData::Pyro1Continuity(expected), ObjectState::Flag(actual)) => expected.0
                == actual,
            (CheckData::Pyro2Continuity(expected), ObjectState::Flag(actual)) => expected.0
                == actual,
            (CheckData::Pyro3Continuity(expected), ObjectState::Flag(actual)) => expected.0
                == actual,
            _ => false,
        }
    }

    /// Whether the condition is one that can be configured: an interval must
    /// have its bounds the right way round.
    pub open spec fn well_formed(self) -> bool {
        match self {
            CheckData::Altitude(condition) => condition.ordered(),
            _ => true,
        }
    }

    /// The quantity this check asks about.
    pub fn kind(&self) -> (k: CheckKind)
        ensures
            k == self.kind_of(),
    {
        match *self {
            CheckData::Altitude(_) => CheckKind::Altitude,
            CheckData::ApogeeFlag(_) => CheckKind::ApogeeFlag,
            CheckData::Pyro1Continuity(_) => CheckKind::Pyro1Continuity,
            CheckData::Pyro2Continuity(_) => CheckKind::Pyro2Continuity,
            CheckData::Pyro3Continuity(_) => CheckKind::Pyro3Continuity,
        }
    }

    /// Tests the reading `value` against the condition.
    ///
    /// The reading must be of the kind in which the quantity is reported. A
    /// reading of another kind means that checks and data source are wired
    /// together wrongly, and there is no answer to give.
    pub fn evaluate(&self, value: ObjectState) -> (r: bool)
        requires
            value.answers(self.kind_of()),
        ensures
            r == self.satisfied_by(value),
    {
        match (*self, value) {
            (CheckData::Altitude(condition), ObjectState::Float(actual)) => condition.evaluate(
                actual,
            ),
            (CheckData::ApogeeFlag(expected), ObjectState::Flag(actual)) => expected.0 == actual,
            (CheckData::Pyro1Continuity(expected), ObjectState::Flag(actual)) => expected.0
                == actual,
            (CheckData::Pyro2Continuity(expected), ObjectState::Flag(actual)) => expected.0
                == actual,
            (CheckData::Pyro3Continuity(expected), ObjectState::Flag(actual)) => expected.0
                == actual,
            _ => false,
        }
    }

    /// Tests whether the condition is one that can be configured.
    pub fn is_well_formed(&self) -> (r: bool)
        ensures
            r == self.well_formed(),
    {
        match *self {
            CheckData::Altitude(condition) => condition.is_ordered(),
            _ => true,
        }
    }
}

/// An actuator together with the value a command sets it to.
#[derive(Debug, Copy, Clone, PartialEq, Eq)]
pub enum CommandObject {
    Pyro1(bool),
    Pyro2(bool),
    Pyro3(bool),
    Beacon(bool),
    DataRate(u16),
}

/// An actuator a command can act upon, without the value to set.
#[derive(Debug, Copy, Clone, PartialEq, Eq)]
pub enum CommandKind {
    Pyro1,
    Pyro2,
    Pyro3,
    Beacon,
    DataRate,
}

impl CommandObject {
    /// The actuator this command acts upon.
    pub open spec fn kind_of(self) -> CommandKind {
        match self {
            CommandObject::Pyro1(_) => CommandKind::Pyro1,
            CommandObject::Pyro2(_) => CommandKind::Pyro2,
            CommandObject::Pyro3(_) => CommandKind::Pyro3,
            CommandObject::Beacon(_) => CommandKind::Beacon,
            CommandObject::DataRate(_) => CommandKind::DataRate,
        }
    }

    /// The value this command sets its actuator to.
    pub open spec fn state_of(self) -> ObjectState {
        match self {
            CommandObject::Pyro1(val) => ObjectState::Flag(val),
            CommandObject::Pyro2(val) => ObjectState::Flag(val),
            CommandObject::Pyro3(val) => ObjectState::Flag(val),
            CommandObject::Beacon(val) => ObjectState::Flag(val),
            CommandObject::DataRate(val) => ObjectState::Short(val),
        }
    }
}

impl CommandKind {
    /// Whether the actuator is switched on and off. The data rate is the one
    /// actuator that takes a number instead.
    pub open spec fn takes_bool(self) -> bool {
        self != CommandKind::DataRate
    }

    /// Whether `state` is a value of the kind this actuator takes.
    pub open spec fn accepts(self, state: ObjectState) -> bool {
        match state {
            ObjectState::Flag(_) => self.takes_bool(),
            ObjectState::Short(_) => !self.takes_bool(),
            ObjectState::Float(_) => false,
        }
    }

    /// Tests whether `state` is a value of the kind this actuator takes.
    pub fn can_take(&self, state: ObjectState) -> (r: bool)
        ensures
            r == self.accepts(state),
    {
        let is_data_rate = match *self {
            CommandKind::DataRate => true,
            _ => false,
        };
        match state {
            ObjectState::Flag(_) => !is_data_rate,
            ObjectState::Short(_) => is_data_rate,
            ObjectState::Float(_) => false,
        }
    }

    /// Pairs a switched actuator with the value to set it to. The data rate
    /// takes no `bool`.
    pub fn with_bool(self, val: bool) -> (object: CommandObject)
        requires
            self.takes_bool(),
        ensures
            object.kind_of() == self,
            object.state_of() == ObjectState::Flag(val),
    {
        match self {
            CommandKind::Pyro1 => CommandObject::Pyro1(val),
            CommandKind::Pyro2 => CommandObject::Pyro2(val),
            CommandKind::Pyro3 => CommandObject::Pyro3(val),
            CommandKind::Beacon => CommandObject::Beacon(val),
            CommandKind::DataRate => unreached(),
        }
    }

    /// Pairs the data rate with the rate to set. No other actuator takes a
    /// number.
    pub fn with_u16(self, val: u16) -> (object: CommandObject)
        requires
            self == CommandKind::DataRate,
        ensures
            object == CommandObject::DataRate(val),
    {
        CommandObject::DataRate(val)
    }

    /// Pairs the actuator with a value of whichever kind it takes.
    pub fn with_state(self, state: ObjectState) -> (object: CommandObject)
        requires
            self.accepts(state),
        ensures
            object.kind_of() == self,
            object.state_of() == state,
    {
        match state {
            ObjectState::Flag(val) => self.with_bool(val),
            ObjectState::Short(val) => self.with_u16(val),
            ObjectState::Float(_) => unreached(),
        }
    }
}

} // verus!
