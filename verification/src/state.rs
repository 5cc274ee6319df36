//! The record persisted in the greeted account, and its eight-byte layout.

use vstd::prelude::*;

use crate::codec::lemma_le_bytes_round_trip;
use crate::codec::lemma_u32_le_round_trip;
use crate::codec::read_u32_le;
use crate::codec::u32_from_le_bytes;
use crate::codec::u32_to_le_bytes;
use crate::codec::write_u32_le;
use crate::error::ProgramError;

verus! {

/// Define the type of state stored in accounts.
#[derive(Clone, Copy, Debug, PartialEq, Eq, Structural)]
pub struct GreetingAccount {
    /// Number of greetings.
    pub counter: u32,
    /// Parity of the counter, recomputed on every successful mutation.
    pub check: u32,
}

/// The record stored in an eight-byte buffer: `counter` in bytes 0 to 3,
/// `check` in bytes 4 to 7, both little-endian.
pub open spec fn spec_decode(data: Seq<u8>) -> GreetingAccount
    recommends
        data.len() == 8,
{
    GreetingAccount {
        counter: u32_from_le_bytes(data.subrange(0, 4)),
        check: u32_from_le_bytes(data.subrange(4, 8)),
    }
}

/// The eight-byte image of a record, fields in order, little-endian.
pub open spec fn spec_encode(rec: GreetingAccount) -> Seq<u8> {
    u32_to_le_bytes(rec.counter) + u32_to_le_bytes(rec.check)
}

impl GreetingAccount {
    /// Decodes a record from an account buffer. Exactly the eight-byte
    /// buffers decode; a shorter buffer is undersized and a longer one has
    /// trailing bytes, and both are malformed.
    pub fn try_from_slice(data: &[u8]) -> (r: Result<GreetingAccount, ProgramError>)
        ensures
            data@.len() == 8 ==> r == Ok::<GreetingAccount, ProgramError>(spec_decode(data@)),
            data@.len() != 8 ==> r == Err::<GreetingAccount, ProgramError>(
                ProgramError::DecodeError,
            ),
    {
        if data.len() != 8 {
            return Err(ProgramError::DecodeError);
        }
        let counter = read_u32_le(data, 0);
        let check = read_u32_le(data, 4);
        Ok(GreetingAccount { counter, check })
    }

    /// Encodes the record into its fixed eight-byte layout.
    pub fn serialize(&self) -> (out: Vec<u8>)
        ensures
            out@ == spec_encode(*self),
    {
        let mut out: Vec<u8> = Vec::new();
        write_u32_le(self.counter, &mut out);
        write_u32_le(self.check, &mut out);
        proof {
            assert(out@ =~= spec_encode(*self));
        }
        out
    }
}

/// Decoding undoes encoding: every record survives a trip through its
/// byte image.
pub proof fn lemma_record_round_trip(rec: GreetingAccount)
    ensures
        spec_decode(spec_encode(rec)) == rec,
{
    assert(spec_encode(rec).subrange(0, 4) =~= u32_to_le_bytes(rec.counter));
    assert(spec_encode(rec).subrange(4, 8) =~= u32_to_le_bytes(rec.check));
    lemma_u32_le_round_trip(rec.counter);
    lemma_u32_le_round_trip(rec.check);
}

/// Encoding undoes decoding: every eight-byte buffer is reproduced,
/// byte for byte, by encoding the record it holds.
pub proof fn lemma_buffer_round_trip(data: Seq<u8>)
    requires
        data.len() == 8,
    ensures
        spec_encode(spec_decode(data)) == data,
{
    lemma_le_bytes_round_trip(data.subrange(0, 4));
    lemma_le_bytes_round_trip(data.subrange(4, 8));
    assert(spec_encode(spec_decode(data)) =~= data);
}

} // verus!
