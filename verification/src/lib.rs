//! Verified core of a button-driven firmware for a single-core
//! microcontroller without an operating system.
//!
//! An interrupt routine counts the presses of a button; a main loop polls the
//! count and reacts to changes. The two share a small store of state, and the
//! only thing that keeps them apart is the masking of interrupts: every access
//! to the store happens inside a critical section.
//!
//! The core holds the decisions and leaves the hardware to the platform
//! around it, which masks the interrupts, reads and clears the button line,
//! drives the output pin and stops the processor.
//!
//! - [`store`]: the shared state store and its operations
//! - [`mode`]: the system mode and its transition table
//! - [`isr`]: the interrupt routine for an edge of the button line
//! - [`main_loop`]: one iteration of the polling loop
//! - [`fault`]: the handler for unrecoverable hardware faults
//! - [`schedule`]: what holds of every interleaving of these

pub mod fault;
pub mod isr;
pub mod main_loop;
pub mod mode;
pub mod schedule;
pub mod store;
