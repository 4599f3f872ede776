//! A checked boundary between host values and a round-robin time-series
//! database engine reached through a foreign call contract.
//!
//! The library turns paths, strings, timestamps and option sets into the
//! exact byte layouts the engine expects, and turns the engine's raw output
//! back into owned values. The calls themselves are made by the caller.
pub mod error;
pub mod marshal;
pub mod flags;
pub mod call;
pub mod data;
