//! The main control loop: a busy poll of the press counter.
//!
//! The loop keeps the counter value it saw last. Each iteration reads the
//! counter once, inside one critical section, and reacts if the value
//! differs: the indicator output is toggled and the button edge is applied to
//! the system mode. Values are compared by inequality only, so a counter that
//! wrapped is seen as changed, and a counter that came round to exactly the
//! value seen last is not.
//!
//! The loop itself, and the output pin, belong to the platform: `poll` is one
//! iteration and says what to do with the pin.

use vstd::prelude::*;
use crate::mode::{ModeSignal, SystemMode};
use crate::store::{SharedStateStore, StoreState, COUNTER_MODULUS};

verus! {

/// The level of the indicator output.
#[derive(Clone, Copy, Debug, PartialEq, Eq, Structural)]
pub enum OutputLevel {
    Low,
    High,
}

impl OutputLevel {
    /// The other level.
    pub open spec fn toggled(self) -> OutputLevel {
        match self {
            OutputLevel::Low => OutputLevel::High,
            OutputLevel::High => OutputLevel::Low,
        }
    }

    /// The other level.
    pub fn toggle(self) -> (level: OutputLevel)
        ensures
            level == self.toggled(),
    {
        match self {
            OutputLevel::Low => OutputLevel::High,
            OutputLevel::High => OutputLevel::Low,
        }
    }
}

/// What one iteration of the main loop asks of the platform and reports.
#[derive(Clone, Copy, Debug, PartialEq, Eq, Structural)]
pub struct Reaction {
    /// Whether the indicator output must be toggled now.
    pub toggle_output: bool,
    /// The level of the indicator output once that is done.
    pub output: OutputLevel,
    /// The system mode at the end of the iteration.
    pub mode: SystemMode,
}

/// The mathematical content of the main loop's state.
pub struct MainLoopState {
    /// The counter value seen by the latest read.
    pub last_observed_count: nat,
    /// The level the indicator output has been driven to.
    pub output: OutputLevel,
}

impl MainLoopState {
    /// Whether the counter value seen last lies within the counter's width.
    pub open spec fn wf(self) -> bool {
        self.last_observed_count < COUNTER_MODULUS
    }

    /// The state of a loop that starts when the counter reads `count`: the
    /// output is in its initial low state.
    pub open spec fn started(count: nat) -> MainLoopState {
        MainLoopState { last_observed_count: count, output: OutputLevel::Low }
    }

    /// Whether a counter that reads `count` differs from what was seen last.
    pub open spec fn observes_change(self, count: nat) -> bool {
        count != self.last_observed_count
    }

    /// The state after an iteration that read `count`.
    pub open spec fn polled(self, count: nat) -> MainLoopState {
        MainLoopState {
            last_observed_count: count,
            output: if self.observes_change(count) {
                self.output.toggled()
            } else {
                self.output
            },
        }
    }
}

/// The store after an iteration of the loop in state `main_loop`: an observed
/// change applies the button edge to the mode, and nothing else is written.
pub open spec fn store_after_poll<B>(store: StoreState<B>, main_loop: MainLoopState) -> StoreState<B> {
    if main_loop.observes_change(store.press_count) {
        store.signalled(ModeSignal::ButtonEdge)
    } else {
        store
    }
}

/// The state of the main control loop.
pub struct MainLoop {
    last_observed_count: u32,
    output: OutputLevel,
}

impl View for MainLoop {
    type V = MainLoopState;

    closed spec fn view(&self) -> MainLoopState {
        MainLoopState {
            last_observed_count: self.last_observed_count as nat,
            output: self.output,
        }
    }
}

impl MainLoop {
    /// What a loop has seen last always lies within the counter's width.
    pub proof fn lemma_view_wf(&self)
        ensures
            self@.wf(),
    {
    }

    /// Starts the loop: reads the counter as the value seen last. The
    /// indicator output is taken to be low.
    pub fn start<B>(store: &SharedStateStore<B>) -> (main_loop: MainLoop)
        ensures
            main_loop@ == MainLoopState::started(store@.press_count),
    {
        MainLoop { last_observed_count: store.read_press_count(), output: OutputLevel::Low }
    }

    /// Runs one iteration: reads the counter and, if it differs from the
    /// value seen last, reacts and remembers the new value.
    pub fn poll<B>(&mut self, store: &mut SharedStateStore<B>) -> (reaction: Reaction)
        ensures
            final(self)@ == old(self)@.polled(old(store)@.press_count),
            final(store)@ == store_after_poll(old(store)@, old(self)@),
            reaction.toggle_output == old(self)@.observes_change(old(store)@.press_count),
            reaction.output == final(self)@.output,
            reaction.mode == final(store)@.mode,
    {
        let count = store.read_press_count();
        if count != self.last_observed_count {
            self.output = self.output.toggle();
            let mode = store.apply_signal(ModeSignal::ButtonEdge);
            self.last_observed_count = count;
            Reaction { toggle_output: true, output: self.output, mode: mode }
        } else {
            Reaction { toggle_output: false, output: self.output, mode: store.read_mode() }
        }
    }

    /// The counter value seen by the latest read.
    pub fn last_observed_count(&self) -> (count: u32)
        ensures
            count == self@.last_observed_count,
    {
        self.last_observed_count
    }

    /// The level the indicator output has been driven to.
    pub fn output(&self) -> (level: OutputLevel)
        ensures
            level == self@.output,
    {
        self.output
    }
}

} // verus!
