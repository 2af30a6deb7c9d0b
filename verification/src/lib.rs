//! Sampling and windowing core for a scrolling waveform display.
//!
//! A host event loop delivers ticks at its own, typically fast, cadence. The
//! [`gate::ClockGate`] throttles those ticks down to a steady sampling rate,
//! the [`sampler::Sampler`] turns each due tick into one batch of
//! observations, one per signal source, and the [`registry::SeriesRegistry`]
//! routes each observation into its [`buffer::SeriesBuffer`], a bounded,
//! most-recent-first history with a capacity-based eviction rule. Rendering
//! and signal acquisition stay outside: the core works on plain values handed
//! in by the host and exposes read-only snapshots of the retained history.

pub mod buffer;
pub mod gate;
pub mod observation;
pub mod registry;
pub mod sampler;
