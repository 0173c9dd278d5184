//! Verified core of a machine-mode SBI firmware for a two-hart RV64 board.
//!
//! The crate holds the decisions that the firmware takes on every trap: which
//! registers a trap saves, how a trap cause is classified, which interrupts are
//! forwarded to the supervisor, which instructions are emulated, and how
//! supervisor calls are routed. Hardware is never touched from here. Each
//! decision is a function from plain values to plain values; what has to be
//! written to the hart comes out as a list of [`hart::Op`], and what has to be
//! read from it is asked for through [`trap::Stage`].

pub mod boot;
pub mod cause;
pub mod emulate;
pub mod fatal;
pub mod firmware;
pub mod forward;
pub mod frame;
pub mod hart;
pub mod laws;
pub mod sbi;
pub mod sequencer;
pub mod serial;
pub mod service;
pub mod trap;
