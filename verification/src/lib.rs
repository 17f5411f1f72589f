//! Verified core of a snowflake identifier generator.
//!
//! A process obtains a small worker identity from a remote coordinator once,
//! then issues globally-orderable identifiers locally by combining a
//! nanosecond timestamp, the worker identity, an anti-collision sequence
//! counter and a caller-supplied usage tag. This crate holds the verified
//! logic: the generation step, the hexadecimal rendering and its decoder,
//! the validation of coordinator responses, and the re-verification state
//! machine. The surrounding process (clock reads, HTTP, threads) hands this
//! crate plain values and acts on what it returns.

pub mod coordinator;
pub mod generator;
pub mod hex;
pub mod identity;
pub mod scheduler;
pub mod snowflake;
