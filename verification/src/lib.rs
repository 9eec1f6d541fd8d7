//! Motion-gated sensor sampling coordinator.
//!
//! A motion detector raises an event in one execution context (a hardware
//! interrupt, or a level wait in a cooperative task); a sampling loop in
//! another context consumes the event, honours the sensor's minimum
//! inter-read interval, triggers one blocking read of a temperature/humidity
//! sensor, converts the temperature and emits the result. This crate holds
//! the coordination logic itself — the event latch, the interrupt dispatch
//! decision, the quiescent-interval gate, the unit conversion and the
//! outcome dispatch — verified; pin configuration, the bit-banged sensor
//! protocol and console output live with the surrounding firmware, which
//! hands the library plain values and takes plain values back.

pub mod convert;
pub mod coop;
pub mod flag;
pub mod reading;
pub mod trace;
