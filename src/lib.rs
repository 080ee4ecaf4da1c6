//! Session engine for streaming a sampled waveform to a filtering device over a
//! serial link and collecting what the device sends back.
//!
//! Samples travel as IEEE-754 single precision values; the library handles them
//! as their raw `u32` bit patterns, so that every decision it makes is stated
//! and proved over integers and byte sequences.
pub mod filter;
pub mod frame;
pub mod graph;
pub mod receiver;
pub mod transmitter;
