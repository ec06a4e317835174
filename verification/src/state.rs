use vstd::prelude::*;
use crate::codec::{le_bytes_of_u32, le_bytes_to_u32, lemma_le_u32_round_trip, u32_from_le,
    u32_to_le};
use crate::error::CounterError;

verus! {

/// The stored state: one counter value, persisted as four little-endian
/// bytes in a host-managed storage slot.
#[derive(Clone, Copy, Debug, PartialEq, Eq, Structural)]
pub struct Counter {
    pub count: u32,
}

impl Counter {
    /// The fixed binary encoding of the stored state: exactly four bytes,
    /// the counter value in little-endian order.
    pub open spec fn encoding(self) -> Seq<u8> {
        le_bytes_of_u32(self.count)
    }

    /// A byte string decodes as stored state exactly when it has the
    /// encoding's fixed length; every four-byte string is a valid encoding.
    pub open spec fn decodes(bytes: Seq<u8>) -> bool {
        bytes.len() == 4
    }

    /// The stored state a well-formed byte string stands for.
    pub open spec fn decoding(bytes: Seq<u8>) -> Counter
        recommends
            Self::decodes(bytes),
    {
        Counter { count: le_bytes_to_u32(bytes) }
    }

    /// Serialize the counter into its four-byte little-endian encoding.
    pub fn encode(&self) -> (r: Vec<u8>)
        ensures
            r@ == self.encoding(),
            r@.len() == 4,
    {
        u32_to_le(self.count)
    }

    /// Deserialize a counter from a storage slot's raw bytes. This succeeds
    /// exactly on four-byte slots; any other length is a decode failure.
    pub fn decode(bytes: &[u8]) -> (r: Result<Counter, CounterError>)
        ensures
            r is Ok <==> Self::decodes(bytes@),
            Self::decodes(bytes@) ==> r == Ok::<Counter, CounterError>(Self::decoding(bytes@)),
            !Self::decodes(bytes@) ==> r == Err::<Counter, CounterError>(CounterError::DecodeError),
    {
        if bytes.len() == 4 {
            Ok(Counter { count: u32_from_le(bytes) })
        } else {
            Err(CounterError::DecodeError)
        }
    }
}

/// Round trip: encoding a stored state with value `v` and decoding the
/// resulting bytes yields `v` again, for every `v`.
pub proof fn lemma_state_round_trip(v: u32)
    ensures
        Counter::decodes((Counter { count: v }).encoding()),
        Counter::decoding((Counter { count: v }).encoding()) == (Counter { count: v }),
{
    lemma_le_u32_round_trip(v);
}

} // verus!
