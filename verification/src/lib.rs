//! Verified driver core for timer-paced DMA waveform streaming.
//!
//! A precomputed table of duty-cycle words is streamed into a peripheral's
//! compare registers by a DMA channel, one burst per timer update event, so
//! that a multi-channel PWM waveform plays continuously without CPU work.
//! This crate holds the verified logic of that core: building the waveform
//! table, packing the configuration register words, the DMA channel and
//! timer state machines, and the ordering rules that make the handoff to
//! hardware safe. The raw memory-mapped register writes themselves live
//! outside the crate and consume the values computed here.

pub mod burst;
pub mod dma;
pub mod errors;
pub mod registers;
pub mod system;
pub mod timer;
pub mod waveform;
