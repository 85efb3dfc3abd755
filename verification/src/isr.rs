//! The interrupt service routine for the falling edge of the button line.
//!
//! The routine runs inside one critical section, performs no fallible
//! operation and does not loop. It acknowledges the edge at the button line,
//! if the button has been installed, and then counts the press. An edge that
//! arrives before the button is installed is counted all the same: that is a
//! benign race during start-up, not an error.
//!
//! The two accesses to the line itself belong to the platform, which passes
//! them in as `query` and `clear`.

use vstd::prelude::*;
use vstd::arithmetic::div_mod::{lemma_add_mod_noop, lemma_small_mod};
use crate::store::{SharedStateStore, StoreState, COUNTER_MODULUS};

verus! {

/// What servicing one edge does to the cells that the main loop reads: the
/// press is counted, the mode is left alone, and a button stays installed or
/// absent as it was.
pub open spec fn edge_counted<B>(before: StoreState<B>, after: StoreState<B>) -> bool {
    &&& after.press_count == before.pressed().press_count
    &&& after.mode == before.mode
    &&& after.button is Some <==> before.button is Some
}

/// Whether each state of `states` follows from the one before it by one
/// serviced edge.
pub open spec fn edges_serviced<B>(states: Seq<StoreState<B>>) -> bool {
    forall|i: int| 0 <= i < states.len() - 1 ==> edge_counted(#[trigger] states[i], states[i + 1])
}

/// Services one edge of the button line.
///
/// If a button is installed, `query` reads the pending flag of its line, and
/// `clear` is run on the handle if the flag was raised. With no button
/// installed neither is called. In every case the press is then counted.
pub fn service_edge<B, Q, C>(store: &mut SharedStateStore<B>, query: Q, clear: C) where
    Q: FnOnce(&B) -> bool,
    C: FnOnce(&mut B),

    requires
        old(store)@.button matches Some(b) ==> call_requires(query, (&b,)),
        forall|h: &mut B| old(store)@.button == Some(*h) ==> call_requires(clear, (h,)),
    ensures
        edge_counted(old(store)@, final(store)@),
        old(store)@.button matches Some(b) ==> (final(store)@.button matches Some(after) && {
            ||| call_ensures(query, (&b,), false) && after == b
            ||| call_ensures(query, (&b,), true) && exists|h: &mut B|
                *h == b && *final(h) == after && call_ensures(clear, (h,), ())
        }),
{
    match store.button_mut() {
        Some(button) => {
            let raised = query(&*button);
            if raised {
                clear(button);
            }
        },
        None => {},
    }
    store.record_press();
}

/// Wraparound law: after any number of edges delivered to the routine, the
/// counter reads its earlier value plus that number, modulo the counter's
/// width. The mode is as it was, and so is the presence of a button.
pub proof fn lemma_edges_counted<B>(states: Seq<StoreState<B>>)
    requires
        states.len() > 0,
        states[0].wf(),
        edges_serviced(states),
    ensures
        states.last().press_count == (states[0].press_count + (states.len() - 1)) % (
        COUNTER_MODULUS as int),
        states.last().mode == states[0].mode,
        states.last().button is Some <==> states[0].button is Some,
    decreases states.len(),
{
    let modulus = COUNTER_MODULUS as int;
    if states.len() == 1 {
        lemma_small_mod(states[0].press_count, COUNTER_MODULUS as nat);
    } else {
        let earlier = states.drop_last();
        assert(edges_serviced(earlier)) by {
            assert forall|i: int| 0 <= i < earlier.len() - 1 implies edge_counted(
                #[trigger] earlier[i],
                earlier[i + 1],
            ) by {
                assert(edge_counted(states[i], states[i + 1]));
            }
        }
        lemma_edges_counted(earlier);
        assert(edge_counted(states[states.len() - 2], states[states.len() - 1]));
        lemma_add_mod_noop(states[0].press_count + (states.len() - 2), 1, modulus);
        lemma_small_mod(1, COUNTER_MODULUS as nat);
    }
}

} // verus!
