//! Core of a temperature and humidity station: the most recent reading of a
//! sensor is kept in one slot, a polling loop refreshes it on a fixed cadence,
//! and two HTTP routes answer from it.
//!
//! Everything here is sequential and free of I/O. The caller owns the sensor,
//! the clock, the lock around the slot and the listener; this crate decides
//! what is stored, how long to wait and what each route answers.

pub mod config;
pub mod polling;
pub mod reading;
pub mod server;
pub mod shared;
