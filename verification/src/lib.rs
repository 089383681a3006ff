//! A periodic control loop for a microcontroller, written without any
//! hardware access of its own.
//!
//! A hardware timer expires at a fixed period. On every expiry the interrupt
//! handler toggles one digital output line, transmits a status line that names
//! the new level, and acknowledges the timer. Between expiries an idle
//! activity keeps the processor interruptible and touches nothing.
//!
//! The crate holds the rules of that loop as a state machine: the embedding
//! program reports what the hardware did as an [`control::Event`], and is told
//! what to do to the hardware next as an [`control::Action`]. The three
//! peripheral handles are owned by one value, [`control::Local`], which
//! initialization hands over once and which is never shared.

pub mod control;
pub mod laws;
pub mod pin;
pub mod serial;
pub mod timer;
