//! The operating posture of the device and its transition table.

use vstd::prelude::*;

verus! {

/// The operating posture of the device. Exactly one value holds at any instant.
#[derive(Clone, Copy, Debug, PartialEq, Eq, Structural)]
pub enum SystemMode {
    Sleep,
    Standalone,
    Continuous,
}

/// A signal that may move the device from one mode to another.
#[derive(Clone, Copy, Debug, PartialEq, Eq, Structural)]
pub enum ModeSignal {
    /// The button has been active for a sustained period.
    SustainedActivity,
    /// Nothing has happened for the length of the inactivity timeout.
    InactivityTimeout,
    /// One edge of the button line was observed.
    ButtonEdge,
}

impl SystemMode {
    /// Whether the transition table has an entry for `signal` in mode `self`.
    /// Every other pair of mode and signal leaves the mode as it is.
    pub open spec fn moves_on(self, signal: ModeSignal) -> bool {
        ||| self == SystemMode::Standalone && signal == ModeSignal::SustainedActivity
        ||| self == SystemMode::Continuous && signal == ModeSignal::InactivityTimeout
        ||| self == SystemMode::Sleep && signal == ModeSignal::ButtonEdge
    }

    /// The transition table: the mode that follows `self` when `signal` arrives.
    pub open spec fn next(self, signal: ModeSignal) -> SystemMode {
        match (self, signal) {
            (SystemMode::Standalone, ModeSignal::SustainedActivity) => SystemMode::Continuous,
            (SystemMode::Continuous, ModeSignal::InactivityTimeout) => SystemMode::Sleep,
            (SystemMode::Sleep, ModeSignal::ButtonEdge) => SystemMode::Standalone,
            _ => self,
        }
    }

    /// The mode the device is in after power-on or reset.
    pub fn initial() -> (mode: SystemMode)
        ensures
            mode == SystemMode::Standalone,
    {
        SystemMode::Standalone
    }

    /// Applies one signal to the mode, following the transition table.
    pub fn transition(self, signal: ModeSignal) -> (mode: SystemMode)
        ensures
            mode == self.next(signal),
    {
        match self {
            SystemMode::Standalone => match signal {
                ModeSignal::SustainedActivity => SystemMode::Continuous,
                _ => self,
            },
            SystemMode::Continuous => match signal {
                ModeSignal::InactivityTimeout => SystemMode::Sleep,
                _ => self,
            },
            SystemMode::Sleep => match signal {
                ModeSignal::ButtonEdge => SystemMode::Standalone,
                _ => self,
            },
        }
    }
}

/// The transition table holds exactly. Sustained activity takes `Standalone`
/// to `Continuous`, the inactivity timeout takes `Continuous` to `Sleep`, a
/// button edge takes `Sleep` to `Standalone`, and every other pair of mode and
/// signal leaves the mode unchanged.
pub proof fn lemma_transition_table(mode: SystemMode, signal: ModeSignal)
    ensures
        mode == SystemMode::Standalone && signal == ModeSignal::SustainedActivity ==> mode.next(signal)
            == SystemMode::Continuous,
        mode == SystemMode::Continuous && signal == ModeSignal::InactivityTimeout ==> mode.next(signal)
            == SystemMode::Sleep,
        mode == SystemMode::Sleep && signal == ModeSignal::ButtonEdge ==> mode.next(signal)
            == SystemMode::Standalone,
        !mode.moves_on(signal) ==> mode.next(signal) == mode,
        mode.moves_on(signal) <==> mode.next(signal) != mode,
{
}

} // verus!
