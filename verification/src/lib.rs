//! A minimal on-chain greeting program, verified.
//!
//! The library decodes a fixed eight-byte record from an account buffer,
//! overwrites its counter from the instruction payload, recomputes the
//! parity check field, and encodes the record back in place. Every step
//! carries a contract; the host-facing entrypoint glue lives outside the
//! library.

pub mod account;
pub mod codec;
pub mod error;
pub mod processor;
pub mod state;
