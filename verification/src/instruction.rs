use vstd::prelude::*;
use vstd::slice::slice_subrange;
use crate::codec::{le_bytes_to_u32, u32_from_le};
use crate::error::CounterError;

verus! {

/// One operation request, constructed fresh from the invocation payload and
/// consumed within the same invocation. On the wire it is one discriminant
/// byte, `0` for increment and `1` for decrement, followed by the amount as
/// four little-endian bytes.
#[derive(Clone, Copy, Debug, PartialEq, Eq, Structural)]
pub enum CounterInstruction {
    /// Add the amount to the counter, wrapping modulo 2^32.
    Increment(u32),
    /// Subtract the amount from the counter, wrapping modulo 2^32.
    Decrement(u32),
}

impl CounterInstruction {
    /// A payload decodes as an instruction exactly when it is five bytes
    /// long and its leading discriminant byte names a known variant.
    pub open spec fn decodes(payload: Seq<u8>) -> bool {
        payload.len() == 5 && (payload[0] == 0 || payload[0] == 1)
    }

    /// The instruction a well-formed payload stands for.
    pub open spec fn decoding(payload: Seq<u8>) -> CounterInstruction
        recommends
            Self::decodes(payload),
    {
        let amount = le_bytes_to_u32(payload.subrange(1, 5));
        if payload[0] == 0 {
            CounterInstruction::Increment(amount)
        } else {
            CounterInstruction::Decrement(amount)
        }
    }

    /// Deserialize an instruction from the raw payload bytes. Fails with a
    /// decode error exactly when the payload is not five bytes long or its
    /// discriminant byte is unknown.
    pub fn decode(payload: &[u8]) -> (r: Result<CounterInstruction, CounterError>)
        ensures
            r is Ok <==> Self::decodes(payload@),
            Self::decodes(payload@) ==> r == Ok::<CounterInstruction, CounterError>(
                Self::decoding(payload@),
            ),
            !Self::decodes(payload@) ==> r == Err::<CounterInstruction, CounterError>(
                CounterError::DecodeError,
            ),
    {
        if payload.len() != 5 {
            return Err(CounterError::DecodeError);
        }
        let amount = u32_from_le(slice_subrange(payload, 1, 5));
        match payload[0] {
            0 => Ok(CounterInstruction::Increment(amount)),
            1 => Ok(CounterInstruction::Decrement(amount)),
            _ => Err(CounterError::DecodeError),
        }
    }

    /// The counter value the operation yields: the amount is added or
    /// subtracted with wraparound modulo 2^32. The wraparound is a design
    /// choice of the stored-state format, not an incidental one.
    pub open spec fn apply_spec(self, count: u32) -> u32 {
        match self {
            CounterInstruction::Increment(amount) => if count + amount <= u32::MAX {
                (count + amount) as u32
            } else {
                (count + amount - 0x1_0000_0000) as u32
            },
            CounterInstruction::Decrement(amount) => if count - amount >= 0 {
                (count - amount) as u32
            } else {
                (count - amount + 0x1_0000_0000) as u32
            },
        }
    }

    /// Apply the operation to a counter value with wraparound arithmetic.
    pub fn apply(&self, count: u32) -> (r: u32)
        ensures
            r == self.apply_spec(count),
    {
        match self {
            CounterInstruction::Increment(amount) => count.wrapping_add(*amount),
            CounterInstruction::Decrement(amount) => count.wrapping_sub(*amount),
        }
    }
}

/// Increment correctness: applying `Increment(a)` to a counter value `c`
/// yields `(c + a) mod 2^32`, for all `c` and `a`.
pub proof fn lemma_increment_wraps(c: u32, a: u32)
    ensures
        (CounterInstruction::Increment(a)).apply_spec(c) == (c + a) % 0x1_0000_0000,
{
}

/// Decrement correctness: applying `Decrement(a)` to a counter value `c`
/// yields `(c - a) mod 2^32`, for all `c` and `a`.
pub proof fn lemma_decrement_wraps(c: u32, a: u32)
    ensures
        (CounterInstruction::Decrement(a)).apply_spec(c) == (c - a) % 0x1_0000_0000,
{
}

/// Idempotence of the no-op: incrementing or decrementing by zero leaves
/// the counter value unchanged, for every starting value.
pub proof fn lemma_zero_amount_preserves_count(c: u32)
    ensures
        (CounterInstruction::Increment(0)).apply_spec(c) == c,
        (CounterInstruction::Decrement(0)).apply_spec(c) == c,
{
}

} // verus!
