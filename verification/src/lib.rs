//! Decision core of a CPU power-state optimizer.
//!
//! The library turns a telemetry snapshot plus a persistent hysteresis
//! counter into a governor/turbo decision, debouncing turbo activation
//! against transient load spikes.  All I/O (reading telemetry, applying a
//! decision to the hardware, rendering) belongs to the surrounding program;
//! the core here is pure and fully verified.

pub mod engine;
pub mod model;
pub mod telemetry;
