//! Interrupt-driven monitoring of one digital input.
//!
//! The crate holds the decisions of a small firmware: how large the heap
//! arena may be, how the input pin is configured and handed to the interrupt
//! context through a protected cell, and what the interrupt handler does on
//! each falling edge. Every function carries a contract. All of them are
//! proved but those of the three private functions in `cell` that call into
//! `critical_section`, which are stated and trusted.

pub mod cell;
pub mod firmware;
pub mod heap;
pub mod laws;
pub mod monitor;
pub mod pin;
pub mod platform;
