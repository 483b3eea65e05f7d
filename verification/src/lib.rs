//! A verified core for a small microcontroller sound-and-light demo.
//!
//! The crate has two independent pieces: a monophonic tone sequencer
//! (a note table, a bounded melody store, and the PWM command schedule
//! that plays the melody) and an addressable-LED encoder that turns a
//! fixed batch of RGB pixels into the PWM duty-cycle waveform of the
//! single-wire LED protocol.  All hardware access (timers, DMA, the
//! executor) stays outside; the library computes plain values.

pub mod buzz;
pub mod encoder;
pub mod notes;
