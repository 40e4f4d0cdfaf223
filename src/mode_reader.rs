//! Settles the mode switch before a mode change is signalled.
//!
//! The switch is read every short interval until it differs from the current
//! mode. It is then read every long interval until two readings in a row
//! agree, since a rotary switch passes through intermediate positions and
//! the user may overshoot. The settled value is signalled only if it differs
//! from the current mode. The caller does the waiting and the reading.
use crate::supervisor::SystemMode;
use vstd::prelude::*;

verus! {

/// Interval between readings while waiting for a change, in milliseconds.
pub const CHANGE_POLL_MILLIS: u64 = 200;

/// Interval between readings while the switch settles, in milliseconds.
pub const DEBOUNCE_MILLIS: u64 = 1_000;

#[derive(Clone, Copy, Debug, PartialEq, Eq, Structural)]
pub enum ReaderState {
    AwaitingChange,
    /// Settling; holds the last reading.
    Debouncing(SystemMode),
}

/// The next current mode and state, and the mode to signal, after a reading.
pub open spec fn spec_on_reading(current: SystemMode, state: ReaderState, reading: SystemMode) -> (
    SystemMode,
    ReaderState,
    Option<SystemMode>,
) {
    match state {
        ReaderState::AwaitingChange => if reading != current {
            (current, ReaderState::Debouncing(reading), None)
        } else {
            (current, ReaderState::AwaitingChange, None)
        },
        ReaderState::Debouncing(candidate) => if reading != candidate {
            (current, ReaderState::Debouncing(reading), None)
        } else if candidate != current {
            (candidate, ReaderState::AwaitingChange, Some(candidate))
        } else {
            (current, ReaderState::AwaitingChange, None)
        },
    }
}

pub struct ModeReader {
    current: SystemMode,
    state: ReaderState,
}

impl ModeReader {
    pub closed spec fn spec_current(&self) -> SystemMode {
        self.current
    }

    pub closed spec fn spec_state(&self) -> ReaderState {
        self.state
    }

    pub fn new(initial_mode: SystemMode) -> (r: Self)
        ensures
            r.spec_current() == initial_mode,
            r.spec_state() == ReaderState::AwaitingChange,
    {
        ModeReader { current: initial_mode, state: ReaderState::AwaitingChange }
    }

    pub fn current(&self) -> (r: SystemMode)
        ensures
            r == self.spec_current(),
    {
        self.current
    }

    /// How long to wait before the next reading.
    pub fn poll_interval_millis(&self) -> (r: u64)
        ensures
            r == match self.spec_state() {
                ReaderState::AwaitingChange => CHANGE_POLL_MILLIS,
                ReaderState::Debouncing(_) => DEBOUNCE_MILLIS,
            },
    {
        match self.state {
            ReaderState::AwaitingChange => CHANGE_POLL_MILLIS,
            ReaderState::Debouncing(_) => DEBOUNCE_MILLIS,
        }
    }

    /// Takes a raw reading; returns the mode to signal, if the switch has
    /// settled on a new one.
    pub fn on_reading(&mut self, reading: SystemMode) -> (r: Option<SystemMode>)
        ensures
            (final(self).spec_current(), final(self).spec_state(), r) == spec_on_reading(
                old(self).spec_current(),
                old(self).spec_state(),
                reading,
            ),
    {
        match self.state {
            ReaderState::AwaitingChange => {
                if reading != self.current {
                    self.state = ReaderState::Debouncing(reading);
                }
                None
            },
            ReaderState::Debouncing(candidate) => {
                if reading != candidate {
                    self.state = ReaderState::Debouncing(reading);
                    None
                } else {
                    self.state = ReaderState::AwaitingChange;
                    if candidate != self.current {
                        self.current = candidate;
                        Some(candidate)
                    } else {
                        None
                    }
                }
            },
        }
    }
}

} // verus!
