//! The flight-sequencing core of a rocket avionics computer: a state graph of
//! fixed capacity and the engine that walks it, one tick at a time.
//!
//! A flight is a graph of states such as pad, ascent, descent and landed.
//! Each state holds up to three checks, up to three commands and an optional
//! timeout. On every tick the engine dispatches the commands of its state
//! that have come due, evaluates the checks in the order in which they were
//! declared, falls back to the timeout, and enters the state that the first
//! of them selects.
//!
//! The engine neither reads sensors nor drives actuators nor looks at a
//! timer. A tick is handed the clock and a snapshot of the readings, and
//! hands back what is to be set and which transition it applied. What it
//! does is therefore a function of what it is given:
//!
//! - [`data_format`] holds the values, conditions and actuator objects;
//! - [`clock`] holds instants, durations and the monotonic clock;
//! - [`data_acquisition`] holds the snapshot of readings;
//! - [`graph`] holds states and the graph, stored in the lists of
//!   [`bounded`];
//! - [`model`] says what a tick does, as functions on a view of the engine;
//! - [`state_machine`] is the engine, proved to do what the model says;
//! - [`guarantees`] proves what the model promises over one tick and over
//!   runs of ticks.

pub mod bounded;
pub mod clock;
pub mod data_acquisition;
pub mod data_format;
pub mod graph;
pub mod guarantees;
pub mod model;
pub mod state_machine;
