//! The state transition of one invocation: gate on ownership, decode,
//! overwrite the counter, recompute the parity check, encode back.

use vstd::prelude::*;

use crate::account::AccountView;
use crate::account::Pubkey;
use crate::codec::read_u32_le;
use crate::codec::u32_from_le_bytes;
use crate::error::ProgramError;
use crate::state::lemma_record_round_trip;
use crate::state::spec_decode;
use crate::state::spec_encode;
use crate::state::GreetingAccount;

verus! {

/// The record after a successful invocation with the given counter value:
/// the counter is overwritten outright, never accumulated, and the check
/// field is its parity.
pub open spec fn spec_updated_record(value: u32) -> GreetingAccount {
    GreetingAccount { counter: value, check: value % 2 }
}

/// What one invocation does, as a function of the owner identifiers, the
/// account bytes and the payload: either the new account bytes, or the
/// error that aborts the invocation with the buffer untouched. The gates
/// fire in order: ownership, then the stored record, then the payload.
pub open spec fn spec_process(
    program_id: Seq<u8>,
    account_owner: Seq<u8>,
    data: Seq<u8>,
    payload: Seq<u8>,
) -> Result<Seq<u8>, ProgramError> {
    if account_owner != program_id {
        Err(ProgramError::IncorrectOwner)
    } else if data.len() != 8 {
        Err(ProgramError::DecodeError)
    } else if payload.len() != 4 {
        Err(ProgramError::PayloadError)
    } else {
        Ok(spec_encode(spec_updated_record(u32_from_le_bytes(payload))))
    }
}

/// Decodes the instruction payload: exactly four bytes, little-endian.
pub fn parse_instruction(payload: &[u8]) -> (r: Result<u32, ProgramError>)
    ensures
        payload@.len() == 4 ==> r == Ok::<u32, ProgramError>(u32_from_le_bytes(payload@)),
        payload@.len() != 4 ==> r == Err::<u32, ProgramError>(ProgramError::PayloadError),
{
    if payload.len() != 4 {
        return Err(ProgramError::PayloadError);
    }
    Ok(read_u32_le(payload, 0))
}

/// Runs one invocation against the first account of `accounts`.
///
/// On success the first account's buffer holds the re-encoded record and
/// nothing else changes; on any error nothing changes at all. The result
/// and the new bytes are exactly `spec_process` of the old state.
pub fn process_instruction(
    program_id: &Pubkey,
    accounts: &mut Vec<AccountView>,
    instruction_data: &[u8],
) -> (r: Result<(), ProgramError>)
    requires
        old(accounts)@.len() >= 1,
    ensures
        final(accounts)@.len() == old(accounts)@.len(),
        forall|i: int|
            1 <= i < old(accounts)@.len() ==> final(accounts)@[i] == old(accounts)@[i],
        match spec_process(
            program_id@,
            old(accounts)@[0].owner@,
            old(accounts)@[0].data@,
            instruction_data@,
        ) {
            Ok(new_data) => {
                &&& r == Ok::<(), ProgramError>(())
                &&& final(accounts)@[0].owner == old(accounts)@[0].owner
                &&& final(accounts)@[0].is_writable == old(accounts)@[0].is_writable
                &&& final(accounts)@[0].data@ == new_data
            },
            Err(e) => {
                &&& r == Err::<(), ProgramError>(e)
                &&& final(accounts)@ == old(accounts)@
            },
        },
{
    if !accounts[0].owner.key_eq(program_id) {
        return Err(ProgramError::IncorrectOwner);
    }
    let mut record = match GreetingAccount::try_from_slice(accounts[0].data.as_slice()) {
        Ok(rec) => rec,
        Err(e) => {
            return Err(e);
        },
    };
    let value = match parse_instruction(instruction_data) {
        Ok(v) => v,
        Err(e) => {
            return Err(e);
        },
    };
    record.counter = value;
    record.check = value % 2;
    let encoded = record.serialize();
    let target = &mut accounts[0];
    target.data = encoded;
    Ok(())
}

/// After every successful invocation the stored record satisfies the
/// invariant of the format: its check field is the parity of its counter.
pub proof fn lemma_check_is_parity(
    program_id: Seq<u8>,
    account_owner: Seq<u8>,
    data: Seq<u8>,
    payload: Seq<u8>,
)
    requires
        spec_process(program_id, account_owner, data, payload) is Ok,
    ensures
        ({
            let rec = spec_decode(
                spec_process(program_id, account_owner, data, payload)->Ok_0,
            );
            rec.check == rec.counter % 2
        }),
{
    lemma_record_round_trip(spec_updated_record(u32_from_le_bytes(payload)));
}

/// The counter is overwritten, not accumulated: a second invocation with
/// the same payload succeeds and leaves the very same bytes behind.
pub proof fn lemma_overwrite_idempotent(
    program_id: Seq<u8>,
    account_owner: Seq<u8>,
    data: Seq<u8>,
    payload: Seq<u8>,
)
    requires
        spec_process(program_id, account_owner, data, payload) is Ok,
    ensures
        spec_process(
            program_id,
            account_owner,
            spec_process(program_id, account_owner, data, payload)->Ok_0,
            payload,
        ) == spec_process(program_id, account_owner, data, payload),
{
}

/// Every buffer a successful invocation leaves behind survives one more
/// decode and encode byte for byte.
pub proof fn lemma_written_buffer_round_trips(
    program_id: Seq<u8>,
    account_owner: Seq<u8>,
    data: Seq<u8>,
    payload: Seq<u8>,
)
    requires
        spec_process(program_id, account_owner, data, payload) is Ok,
    ensures
        ({
            let new_data = spec_process(program_id, account_owner, data, payload)->Ok_0;
            spec_encode(spec_decode(new_data)) == new_data
        }),
{
    crate::state::lemma_buffer_round_trip(
        spec_process(program_id, account_owner, data, payload)->Ok_0,
    );
}

} // verus!
