//! The events that the parts of the application announce to one another.
use vstd::prelude::*;

verus! {

/// An event on the application's bus.
#[derive(Clone, Copy, Debug, PartialEq, Eq)]
pub enum Event {
    /// The user asked to join a room.
    Connect,
    /// The user asked to leave the room.
    Disconnect,
    /// A tone of `freq` hertz should sound for `dur` milliseconds.
    Beep { freq: u32, dur: u32 },
    /// The published state changed here and should go out to the peers.
    PublishedStateUpdated,
    /// The session moved on to the step at this index by itself.
    StepAdvanced(usize),
    /// The user asked to start the configured workout.
    StartWorkout,
}

/// The pitch that announces a step of work.
pub const WORK_PITCH: u32 = 880;

/// The pitch that announces a rest, and that counts a step down.
pub const REST_PITCH: u32 = 440;

/// The length, in milliseconds, of the tone at the start of a step.
pub const STEP_TONE_MILLIS: u32 = 200;

/// The length, in milliseconds, of every other tone.
pub const SHORT_TONE_MILLIS: u32 = 100;

} // verus!
