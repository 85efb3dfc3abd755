//! The shared state store: the three cells that the interrupt context and the
//! main loop share, reachable only through the operations below.
//!
//! Every operation takes the store by reference for the length of one critical
//! section. The caller obtains that reference from the platform's critical
//! section primitive, so holding it is the proof of exclusion. No operation
//! performs I/O, blocks or loops.

use vstd::prelude::*;
use vstd::arithmetic::div_mod::lemma_add_mod_noop;
use crate::mode::{ModeSignal, SystemMode};

verus! {

/// The number of distinct values of the press counter. Counting is modulo this.
pub const COUNTER_MODULUS: u64 = 0x1_0000_0000;

/// A configuration mistake made while the device is being set up.
#[derive(Clone, Copy, Debug, PartialEq, Eq, Structural)]
pub enum ConfigError {
    /// A button handle was offered to a store that already owns one.
    ButtonAlreadyInstalled,
}

/// The mathematical content of a store.
pub struct StoreState<B> {
    /// The installed button handle, if any.
    pub button: Option<B>,
    /// The number of recorded presses, modulo `COUNTER_MODULUS`.
    pub press_count: nat,
    /// The current operating mode.
    pub mode: SystemMode,
}

impl<B> StoreState<B> {
    /// Whether the counter lies within its width.
    pub open spec fn wf(self) -> bool {
        self.press_count < COUNTER_MODULUS
    }

    /// The store after power-on or reset.
    pub open spec fn fresh() -> Self {
        StoreState { button: None, press_count: 0, mode: SystemMode::Standalone }
    }

    /// Whether a button handle offered now would be taken.
    pub open spec fn accepts_button(self) -> bool {
        self.button is None
    }

    /// The store after `handle` was offered: taken if the store had none,
    /// dropped otherwise.
    pub open spec fn after_install(self, handle: B) -> Self {
        if self.accepts_button() {
            StoreState { button: Some(handle), ..self }
        } else {
            self
        }
    }

    /// The store after one recorded press.
    pub open spec fn pressed(self) -> Self {
        StoreState {
            press_count: (self.press_count + 1) % (COUNTER_MODULUS as nat),
            ..self
        }
    }

    /// The store after `n` recorded presses.
    pub open spec fn pressed_times(self, n: nat) -> Self
        decreases n,
    {
        if n == 0 {
            self
        } else {
            self.pressed_times((n - 1) as nat).pressed()
        }
    }

    /// The store with its mode replaced.
    pub open spec fn with_mode(self, mode: SystemMode) -> Self {
        StoreState { mode: mode, ..self }
    }

    /// The store after `signal` was applied to its mode.
    pub open spec fn signalled(self, signal: ModeSignal) -> Self {
        self.with_mode(self.mode.next(signal))
    }
}

/// The single owner of the button handle, the press counter and the mode.
///
/// `B` is the platform's handle for the button line. The store never copies
/// it and never gives it back; it only lends it out.
pub struct SharedStateStore<B> {
    button: Option<B>,
    press_count: u32,
    mode: SystemMode,
}

impl<B> View for SharedStateStore<B> {
    type V = StoreState<B>;

    closed spec fn view(&self) -> StoreState<B> {
        StoreState {
            button: self.button,
            press_count: self.press_count as nat,
            mode: self.mode,
        }
    }
}

impl<B> SharedStateStore<B> {
    /// The counter of every store lies within its width.
    pub proof fn lemma_view_wf(&self)
        ensures
            self@.wf(),
    {
    }

    /// Creates the store in its power-on state: no button, zero presses,
    /// mode `Standalone`.
    pub fn new() -> (store: Self)
        ensures
            store@ == StoreState::<B>::fresh(),
    {
        SharedStateStore { button: None, press_count: 0, mode: SystemMode::Standalone }
    }

    /// Moves `handle` into the store. This succeeds once: a store that
    /// already owns a handle keeps it, drops the one offered and reports
    /// `ButtonAlreadyInstalled`.
    pub fn install_button(&mut self, handle: B) -> (result: Result<(), ConfigError>)
        ensures
            result is Ok <==> old(self)@.accepts_button(),
            result is Err ==> result == Err::<(), ConfigError>(ConfigError::ButtonAlreadyInstalled),
            final(self)@ == old(self)@.after_install(handle),
    {
        if self.button.is_some() {
            Err(ConfigError::ButtonAlreadyInstalled)
        } else {
            self.button = Some(handle);
            Ok(())
        }
    }

    /// Whether a button handle has been installed.
    pub fn has_button(&self) -> (installed: bool)
        ensures
            installed == (self@.button is Some),
    {
        self.button.is_some()
    }

    /// Lends the button handle for reading.
    pub fn button(&self) -> (handle: Option<&B>)
        ensures
            (handle is Some) == (self@.button is Some),
            handle matches Some(h) ==> *h == self@.button->0,
    {
        self.button.as_ref()
    }

    /// Lends the button handle for an operation that changes it. Whatever the
    /// borrower leaves in the handle is what the store owns afterwards; the
    /// counter and the mode are untouched.
    pub fn button_mut(&mut self) -> (handle: Option<&mut B>)
        ensures
            (handle is Some) == (old(self)@.button is Some),
            handle is None ==> final(self)@ == old(self)@,
            handle matches Some(h) ==> (*h == old(self)@.button->0
                && final(self)@ == (StoreState { button: Some(*final(h)), ..old(self)@ })),
    {
        self.button.as_mut()
    }

    /// Counts one press. The counter wraps silently from its largest value
    /// to zero.
    pub fn record_press(&mut self)
        ensures
            final(self)@ == old(self)@.pressed(),
    {
        self.press_count = self.press_count.wrapping_add(1);
    }

    /// Reads the press counter.
    pub fn read_press_count(&self) -> (count: u32)
        ensures
            count == self@.press_count,
    {
        self.press_count
    }

    /// Reads the current mode.
    pub fn read_mode(&self) -> (mode: SystemMode)
        ensures
            mode == self@.mode,
    {
        self.mode
    }

    /// Replaces the current mode.
    pub fn write_mode(&mut self, new_mode: SystemMode)
        ensures
            final(self)@ == old(self)@.with_mode(new_mode),
    {
        self.mode = new_mode;
    }

    /// Applies `signal` to the current mode by the transition table and
    /// returns the mode that results.
    pub fn apply_signal(&mut self, signal: ModeSignal) -> (mode: SystemMode)
        ensures
            final(self)@ == old(self)@.signalled(signal),
            mode == old(self)@.mode.next(signal),
    {
        let next = self.mode.transition(signal);
        self.mode = next;
        next
    }
}

/// Wraparound law: `n` recorded presses advance the counter by `n` modulo
/// its width, and leave the button and the mode as they were.
pub proof fn lemma_presses_wrap<B>(store: StoreState<B>, n: nat)
    requires
        store.wf(),
    ensures
        store.pressed_times(n) == (StoreState {
            press_count: (store.press_count + n) % (COUNTER_MODULUS as nat),
            ..store
        }),
        store.pressed_times(n).wf(),
    decreases n,
{
    if n > 0 {
        lemma_presses_wrap(store, (n - 1) as nat);
        lemma_add_mod_noop(store.press_count + n - 1, 1, COUNTER_MODULUS as int);
    }
}

/// A second installation is rejected whatever came before it, and leaves the
/// store, the handle installed first included, exactly as the first
/// installation left it.
pub proof fn lemma_second_install_rejected<B>(store: StoreState<B>, first: B, second: B)
    ensures
        !store.after_install(first).accepts_button(),
        store.after_install(first).after_install(second) == store.after_install(first),
        store.accepts_button() ==> store.after_install(first).after_install(second).button == Some(
            first,
        ),
{
}

} // verus!
