//! The error surface of the program.

use vstd::prelude::*;

verus! {

/// Everything that can go wrong during one invocation. Each variant maps to
/// a distinct status code of the host runtime; none is retryable and every
/// one aborts the invocation before any byte of the account buffer changes.
#[derive(Clone, Copy, Debug, PartialEq, Eq, Structural)]
pub enum ProgramError {
    /// The target account is not owned by this program.
    IncorrectOwner,
    /// The account buffer does not hold a validly encoded record.
    DecodeError,
    /// The instruction payload is not exactly four bytes.
    PayloadError,
    /// Re-encoding the record failed; unreachable with fixed-width fields,
    /// kept so the surface matches the host's status codes.
    EncodeError,
}

} // verus!
