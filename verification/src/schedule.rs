//! The two execution contexts taken together.
//!
//! The interrupt context and the main loop touch the shared cells only inside
//! critical sections, and a critical section is never interleaved with
//! another. So every execution of the system is a sequence of whole steps:
//! an edge serviced by the interrupt routine, an iteration of the main loop,
//! a signal applied to the mode, or a hardware fault, after which nothing runs
//! any more. This module states what holds of every such sequence.

use vstd::prelude::*;
use vstd::arithmetic::div_mod::{lemma_add_mod_noop, lemma_mod_self_0, lemma_small_mod};
use crate::fault::FaultContext;
use crate::isr::edge_counted;
use crate::main_loop::{store_after_poll, MainLoopState, OutputLevel};
use crate::mode::{ModeSignal, SystemMode};
use crate::store::{lemma_presses_wrap, StoreState, COUNTER_MODULUS};

verus! {

/// One step of the system: a whole critical section of one of its contexts.
pub enum Step {
    /// The interrupt routine services one edge of the button line.
    Edge,
    /// The main loop runs one iteration.
    Poll,
    /// A signal from outside the core is applied to the mode.
    Signal(ModeSignal),
    /// The hardware signals an unrecoverable fault.
    Fault(FaultContext),
}

/// The state of the whole system between two steps.
pub struct SystemState<B> {
    /// The shared cells. The button handle is carried along as it is: what
    /// the platform does to it at the line is no part of this model.
    pub store: StoreState<B>,
    /// The state of the main loop.
    pub main_loop: MainLoopState,
    /// How often the indicator output has been toggled since boot.
    pub toggles: nat,
    /// What the fault handler captured, once it has halted the device.
    pub halted: Option<FaultContext>,
    /// How often the fault handler has been entered.
    pub faults_handled: nat,
}

impl<B> SystemState<B> {
    /// The system after a fresh boot, before any edge: the store in its
    /// power-on state and the main loop started on it.
    pub open spec fn booted() -> Self {
        SystemState {
            store: StoreState::fresh(),
            main_loop: MainLoopState::started(0),
            toggles: 0,
            halted: None,
            faults_handled: 0,
        }
    }

    /// Whether the device has not been halted.
    pub open spec fn running(self) -> bool {
        self.halted is None
    }

    /// Whether both counter values lie within the counter's width.
    pub open spec fn wf(self) -> bool {
        self.store.wf() && self.main_loop.wf()
    }

    /// Whether the main loop has seen the counter's current value.
    pub open spec fn settled(self) -> bool {
        self.main_loop.last_observed_count == self.store.press_count
    }

    /// The system after one step. A halted device takes no step. The fault
    /// handler leaves the shared cells and the main loop as it finds them.
    pub open spec fn step(self, step: Step) -> Self {
        if !self.running() {
            self
        } else {
            match step {
                Step::Edge => SystemState { store: self.store.pressed(), ..self },
                Step::Poll => SystemState {
                    store: store_after_poll(self.store, self.main_loop),
                    main_loop: self.main_loop.polled(self.store.press_count),
                    toggles: if self.main_loop.observes_change(self.store.press_count) {
                        self.toggles + 1
                    } else {
                        self.toggles
                    },
                    ..self
                },
                Step::Signal(signal) => SystemState { store: self.store.signalled(signal), ..self },
                Step::Fault(context) => SystemState {
                    halted: Some(context),
                    faults_handled: self.faults_handled + 1,
                    ..self
                },
            }
        }
    }

    /// The system after the steps of `steps`, taken in order.
    pub open spec fn run(self, steps: Seq<Step>) -> Self
        decreases steps.len(),
    {
        if steps.len() == 0 {
            self
        } else {
            self.run(steps.drop_last()).step(steps.last())
        }
    }
}

/// Whether no fault occurs among `steps`.
pub open spec fn no_fault(steps: Seq<Step>) -> bool {
    forall|i: int| 0 <= i < steps.len() ==> !(#[trigger] steps[i] is Fault)
}

/// The number of edges among `steps`.
pub open spec fn edges_in(steps: Seq<Step>) -> nat
    decreases steps.len(),
{
    if steps.len() == 0 {
        0
    } else {
        edges_in(steps.drop_last()) + if steps.last() is Edge {
            1nat
        } else {
            0nat
        }
    }
}

/// `n` edges in a row.
pub open spec fn edges(n: nat) -> Seq<Step> {
    Seq::new(n, |i: int| Step::Edge)
}

/// `n` rounds, each one edge followed by one iteration of the main loop.
pub open spec fn rounds(n: nat) -> Seq<Step> {
    Seq::new(
        2 * n,
        |i: int|
            if i % 2 == 0 {
                Step::Edge
            } else {
                Step::Poll
            },
    )
}

/// The output level after `n` toggles.
pub open spec fn toggled_times(level: OutputLevel, n: nat) -> OutputLevel {
    if n % 2 == 0 {
        level
    } else {
        level.toggled()
    }
}

/// Whether `steps` holds one edge and one iteration of the main loop, in
/// either order.
pub open spec fn one_edge_one_poll(steps: Seq<Step>) -> bool {
    steps =~= seq![Step::Edge, Step::Poll] || steps =~= seq![Step::Poll, Step::Edge]
}

/// After a fresh boot with no edge delivered the counter reads zero, the
/// output is low, the mode is `Standalone`, and the main loop has seen the
/// counter.
pub proof fn lemma_booted<B>()
    ensures
        SystemState::<B>::booted().wf(),
        SystemState::<B>::booted().running(),
        SystemState::<B>::booted().settled(),
        SystemState::<B>::booted().store.press_count == 0,
        SystemState::<B>::booted().store.mode == SystemMode::Standalone,
        SystemState::<B>::booted().main_loop.output == OutputLevel::Low,
        SystemState::<B>::booted().toggles == 0,
{
}

/// An edge step does to the shared cells what the interrupt routine does.
pub proof fn lemma_edge_step_is_serviced<B>(system: SystemState<B>)
    requires
        system.running(),
    ensures
        edge_counted(system.store, system.step(Step::Edge).store),
{
}

/// Running a sequence and then one more step is running the longer sequence.
pub proof fn lemma_run_push<B>(system: SystemState<B>, steps: Seq<Step>, last: Step)
    ensures
        system.run(steps.push(last)) == system.run(steps).step(last),
        edges_in(steps.push(last)) == edges_in(steps) + if last is Edge {
            1nat
        } else {
            0nat
        },
{
    assert(steps.push(last).drop_last() =~= steps);
}

/// As long as no fault occurs the device keeps running, and the fault handler
/// is not entered.
pub proof fn lemma_no_fault_keeps_running<B>(system: SystemState<B>, steps: Seq<Step>)
    requires
        system.running(),
        no_fault(steps),
    ensures
        system.run(steps).running(),
        system.run(steps).faults_handled == system.faults_handled,
    decreases steps.len(),
{
    if steps.len() > 0 {
        lemma_no_fault_keeps_running(system, steps.drop_last());
    }
}

/// As long as no fault occurs, whatever the steps: the counter ends at its
/// first value plus the number of edges, modulo its width, and both counter
/// values stay within the width.
pub proof fn lemma_run_counts_edges<B>(system: SystemState<B>, steps: Seq<Step>)
    requires
        system.wf(),
        system.running(),
        no_fault(steps),
    ensures
        system.run(steps).store.press_count == (system.store.press_count + edges_in(steps)) % (
        COUNTER_MODULUS as nat),
        system.run(steps).wf(),
    decreases steps.len(),
{
    let modulus = COUNTER_MODULUS as int;
    if steps.len() == 0 {
        lemma_small_mod(system.store.press_count, COUNTER_MODULUS as nat);
    } else {
        lemma_run_counts_edges(system, steps.drop_last());
        lemma_no_fault_keeps_running(system, steps.drop_last());
        if steps.last() is Edge {
            lemma_add_mod_noop(
                (system.store.press_count + edges_in(steps.drop_last())) as int,
                1,
                modulus,
            );
            lemma_small_mod(1, COUNTER_MODULUS as nat);
        }
    }
}

/// Atomicity law: however one serviced edge and one read by the main loop
/// are interleaved, the main loop sees the counter either as it was before
/// the increment or as it is after it, never anything else.
pub proof fn lemma_read_is_atomic<B>(system: SystemState<B>, steps: Seq<Step>)
    requires
        system.running(),
        one_edge_one_poll(steps),
    ensures
        ({
            let seen = system.run(steps).main_loop.last_observed_count;
            ||| seen == system.store.press_count
            ||| seen == system.store.pressed().press_count
        }),
        system.run(steps).store.press_count == system.store.pressed().press_count,
{
    lemma_run_push(system, Seq::empty(), steps[0]);
    lemma_run_push(system, seq![steps[0]], steps[1]);
    assert(steps =~= seq![steps[0]].push(steps[1]));
    assert(seq![steps[0]] =~= Seq::<Step>::empty().push(steps[0]));
}

/// `n` edges in a row are `n` recorded presses and touch nothing else.
pub proof fn lemma_run_edges<B>(system: SystemState<B>, n: nat)
    requires
        system.running(),
    ensures
        system.run(edges(n)) == (SystemState { store: system.store.pressed_times(n), ..system }),
        edges_in(edges(n)) == n,
    decreases n,
{
    if n == 0 {
    } else {
        lemma_run_edges(system, (n - 1) as nat);
        assert(edges(n).drop_last() =~= edges((n - 1) as nat));
    }
}

/// What the comparison by inequality sees. A main loop that has seen the
/// counter, and then polls after `n` further edges, toggles the output
/// exactly if `n` is not a multiple of the counter's width; in either case
/// it has then seen the counter again.
pub proof fn lemma_poll_after_edges<B>(system: SystemState<B>, n: nat)
    requires
        system.wf(),
        system.running(),
        system.settled(),
    ensures
        ({
            let after = system.run(edges(n)).step(Step::Poll);
            &&& after.wf()
            &&& after.running()
            &&& after.settled()
            &&& after.store.press_count == (system.store.press_count + n) % (COUNTER_MODULUS as nat)
            &&& after.toggles == system.toggles + if n % (COUNTER_MODULUS as nat) != 0 {
                1nat
            } else {
                0nat
            }
        }),
{
    let modulus = COUNTER_MODULUS as int;
    let count = system.store.press_count as int;
    lemma_run_edges(system, n);
    lemma_presses_wrap(system.store, n);
    // (count + n) % modulus == count exactly if n % modulus == 0
    lemma_add_mod_noop(count, n as int, modulus);
    lemma_small_mod(count as nat, COUNTER_MODULUS as nat);
    let rest = (n as int) % modulus;
    assert((count + n) % modulus == (count + rest) % modulus);
    if rest == 0 {
    } else if count + rest < modulus {
        lemma_small_mod((count + rest) as nat, COUNTER_MODULUS as nat);
    } else {
        lemma_add_mod_noop(count + rest - modulus, modulus, modulus);
        lemma_mod_self_0(modulus);
        lemma_small_mod((count + rest - modulus) as nat, COUNTER_MODULUS as nat);
    }
}

/// Edges delivered one at a time, with the main loop polling after each:
/// after `n` such rounds the output has been toggled `n` more times, the
/// counter has advanced by `n` modulo its width, and the main loop has seen
/// it.
pub proof fn lemma_rounds_toggle_each<B>(system: SystemState<B>, n: nat)
    requires
        system.wf(),
        system.running(),
        system.settled(),
    ensures
        ({
            let after = system.run(rounds(n));
            &&& after.wf()
            &&& after.running()
            &&& after.settled()
            &&& after.toggles == system.toggles + n
            &&& after.store.press_count == (system.store.press_count + n) % (COUNTER_MODULUS as nat)
            &&& after.main_loop.output == toggled_times(system.main_loop.output, n)
        }),
    decreases n,
{
    let modulus = COUNTER_MODULUS as int;
    if n == 0 {
        assert(rounds(0) =~= Seq::<Step>::empty());
        lemma_small_mod(system.store.press_count, COUNTER_MODULUS as nat);
    } else {
        let m = (n - 1) as nat;
        lemma_rounds_toggle_each(system, m);
        let mid = system.run(rounds(m));
        assert(rounds(n) =~= rounds(m).push(Step::Edge).push(Step::Poll));
        lemma_run_push(system, rounds(m), Step::Edge);
        lemma_run_push(system, rounds(m).push(Step::Edge), Step::Poll);
        assert(system.run(rounds(n)) == mid.step(Step::Edge).step(Step::Poll));
        // one edge always changes the counter
        lemma_add_mod_noop((system.store.press_count + m) as int, 1, modulus);
        lemma_small_mod(1, COUNTER_MODULUS as nat);
        if mid.store.press_count + 1 < modulus {
            lemma_small_mod(mid.store.press_count + 1, COUNTER_MODULUS as nat);
        } else {
            lemma_mod_self_0(modulus);
        }
    }
}

/// Running one sequence and then another is running the two joined.
pub proof fn lemma_run_concat<B>(system: SystemState<B>, first: Seq<Step>, second: Seq<Step>)
    ensures
        system.run(first + second) == system.run(first).run(second),
    decreases second.len(),
{
    if second.len() == 0 {
        assert(first + second =~= first);
    } else {
        lemma_run_concat(system, first, second.drop_last());
        assert((first + second).drop_last() =~= first + second.drop_last());
    }
}

/// The halt is final: whatever is attempted on a halted device, its state no
/// longer changes. In particular control never comes back to the main loop,
/// and the fault handler is not entered again.
pub proof fn lemma_halt_is_final<B>(system: SystemState<B>, steps: Seq<Step>)
    requires
        !system.running(),
    ensures
        system.run(steps) == system,
    decreases steps.len(),
{
    if steps.len() > 0 {
        lemma_halt_is_final(system, steps.drop_last());
    }
}

/// A fault freezes the system where it struck. If the steps `before` hold no
/// fault, then after them, a fault and any steps whatever, the fault handler
/// has been entered exactly once more, it holds the context of that fault,
/// and everything else is as `before` left it.
pub proof fn lemma_fault_halts_once<B>(
    system: SystemState<B>,
    before: Seq<Step>,
    context: FaultContext,
    after: Seq<Step>,
)
    requires
        system.running(),
        no_fault(before),
    ensures
        system.run(before.push(Step::Fault(context)) + after) == (SystemState {
            halted: Some(context),
            faults_handled: system.faults_handled + 1,
            ..system.run(before)
        }),
{
    lemma_no_fault_keeps_running(system, before);
    lemma_run_push(system, before, Step::Fault(context));
    lemma_run_concat(system, before.push(Step::Fault(context)), after);
    lemma_halt_is_final(system.run(before.push(Step::Fault(context))), after);
}

/// Whether sustained activity is never signalled among `steps`.
pub open spec fn no_sustained_activity(steps: Seq<Step>) -> bool {
    forall|i: int|
        0 <= i < steps.len() ==> #[trigger] steps[i] != Step::Signal(ModeSignal::SustainedActivity)
}

/// Only sustained activity takes the device out of `Standalone`: edges,
/// polls, faults and the other signals leave it there.
pub proof fn lemma_standalone_is_kept<B>(system: SystemState<B>, steps: Seq<Step>)
    requires
        system.store.mode == SystemMode::Standalone,
        no_sustained_activity(steps),
    ensures
        system.run(steps).store.mode == SystemMode::Standalone,
    decreases steps.len(),
{
    if steps.len() > 0 {
        lemma_standalone_is_kept(system, steps.drop_last());
    }
}

} // verus!
