//! Supervision engine of a local process watchdog.
//!
//! The crate holds the decisions of the watchdog and leaves the acting to its
//! caller: which log records pass the severity floor and what each line says,
//! how a command line falls into a program and its arguments, and how a
//! supervised unit moves between spawning, running and restarting. Every
//! function carries a contract that Verus proves.

pub mod clock;
pub mod command;
pub mod decimal;
pub mod level;
pub mod logger;
pub mod outcome;
pub mod record;
pub mod stream;
pub mod supervisor;
pub mod unit;
pub mod unit_laws;
