use vstd::prelude::*;
use crate::error::CounterError;
use crate::instruction::CounterInstruction;
use crate::state::Counter;

verus! {

/// One storage slot: the mutable byte buffer of a host-managed account,
/// lent to the processor for the length of a single invocation. The host
/// keeps the slot's identity and authorization metadata to itself; the
/// processor sees only the raw bytes.
#[derive(Debug)]
pub struct AccountSlot {
    /// The slot's raw bytes.
    pub data: Vec<u8>,
}

/// Whether an invocation with these slot contents and this payload
/// succeeds: a slot is present, its bytes decode as stored state, and the
/// payload decodes as an instruction.
pub open spec fn invocation_succeeds(slots: Seq<AccountSlot>, payload: Seq<u8>) -> bool {
    &&& slots.len() > 0
    &&& Counter::decodes(slots[0].data@)
    &&& CounterInstruction::decodes(payload)
}

/// The counter value a successful invocation writes back and reports.
pub open spec fn updated_count(slots: Seq<AccountSlot>, payload: Seq<u8>) -> u32
    recommends
        invocation_succeeds(slots, payload),
{
    CounterInstruction::decoding(payload).apply_spec(Counter::decoding(slots[0].data@).count)
}

/// The error a failing invocation reports: a missing account when the slot
/// list is empty, otherwise a decode failure of the state or the payload.
pub open spec fn invocation_error(slots: Seq<AccountSlot>, payload: Seq<u8>) -> CounterError
    recommends
        !invocation_succeeds(slots, payload),
{
    if slots.len() == 0 {
        CounterError::MissingAccount
    } else {
        CounterError::DecodeError
    }
}

/// The instruction processor: decode the stored state from the first
/// storage slot, decode the requested operation from the payload, apply it
/// with wraparound arithmetic, re-encode the state into the slot, and
/// report the updated count for the host to log. Every failure aborts the
/// invocation before the write-back, so a failing invocation leaves every
/// slot exactly as it found it.
pub fn process_instruction(accounts: &mut Vec<AccountSlot>, instruction_data: &[u8]) -> (r:
    Result<u32, CounterError>)
    ensures
        final(accounts)@.len() == old(accounts)@.len(),
        r is Ok <==> invocation_succeeds(old(accounts)@, instruction_data@),
        invocation_succeeds(old(accounts)@, instruction_data@) ==> {
            let new_count = updated_count(old(accounts)@, instruction_data@);
            &&& r == Ok::<u32, CounterError>(new_count)
            &&& final(accounts)@[0].data@ == (Counter { count: new_count }).encoding()
            &&& forall|i: int| 1 <= i < final(accounts)@.len() ==> final(accounts)@[i] == old(accounts)@[i]
        },
        !invocation_succeeds(old(accounts)@, instruction_data@) ==> {
            &&& r == Err::<u32, CounterError>(
                invocation_error(old(accounts)@, instruction_data@),
            )
            &&& final(accounts)@ == old(accounts)@
        },
{
    if accounts.len() == 0 {
        return Err(CounterError::MissingAccount);
    }
    let counter = match Counter::decode(accounts[0].data.as_slice()) {
        Ok(counter) => counter,
        Err(e) => {
            return Err(e);
        },
    };
    let instruction = match CounterInstruction::decode(instruction_data) {
        Ok(instruction) => instruction,
        Err(e) => {
            return Err(e);
        },
    };
    let updated = Counter { count: instruction.apply(counter.count) };
    accounts[0].data = updated.encode();
    Ok(updated.count)
}

} // verus!
