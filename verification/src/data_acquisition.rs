//! The readings a tick works from.
//!
//! The workspace is a snapshot: one reading for each quantity a check can
//! ask about, each stored in the kind in which that quantity is reported.
//! A check can therefore never be handed a reading of the wrong kind.

use crate::data_format::{CheckKind, ObjectState};
use vstd::prelude::*;

verus! {

/// The current reading of every quantity.
#[derive(Debug, Copy, Clone, PartialEq, Eq)]
pub struct DataWorkspace {
    /// The altitude, in thousandths of a metre.
    pub altitude: i32,
    /// Whether apogee has been declared.
    pub apogee_flag: bool,
    /// Whether the first pyro channel shows continuity.
    pub pyro1_continuity: bool,
    /// Whether the second pyro channel shows continuity.
    pub pyro2_continuity: bool,
    /// Whether the third pyro channel shows continuity.
    pub pyro3_continuity: bool,
}

impl DataWorkspace {
    /// The reading of the quantity `kind`.
    pub open spec fn value_of(self, kind: CheckKind) -> ObjectState {
        match kind {
            CheckKind::Altitude => ObjectState::Float(self.altitude),
            CheckKind::ApogeeFlag => ObjectState::Flag(self.apogee_flag),
            CheckKind::Pyro1Continuity => ObjectState::Flag(self.pyro1_continuity),
            CheckKind::Pyro2Continuity => ObjectState::Flag(self.pyro2_continuity),
            CheckKind::Pyro3Continuity => ObjectState::Flag(self.pyro3_continuity),
        }
    }

    /// The reading of the quantity `kind`, always of the kind in which that
    /// quantity is reported.
    pub fn get_object(&self, kind: CheckKind) -> (value: ObjectState)
        ensures
            value == self.value_of(kind),
            value.answers(kind),
    {
        match kind {
            CheckKind::Altitude => ObjectState::Float(self.altitude),
            CheckKind::ApogeeFlag => ObjectState::Flag(self.apogee_flag),
            CheckKind::Pyro1Continuity => ObjectState::Flag(self.pyro1_continuity),
            CheckKind::Pyro2Continuity => ObjectState::Flag(self.pyro2_continuity),
            CheckKind::Pyro3Continuity => ObjectState::Flag(self.pyro3_continuity),
        }
    }
}

} // verus!
