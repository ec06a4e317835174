use vstd::prelude::*;

verus! {

/// The four little-endian bytes of a 32-bit value: the least significant
/// byte first, the most significant byte last.
pub open spec fn le_bytes_of_u32(v: u32) -> Seq<u8> {
    seq![
        (v & 0xff) as u8,
        ((v >> 8) & 0xff) as u8,
        ((v >> 16) & 0xff) as u8,
        ((v >> 24) & 0xff) as u8,
    ]
}

/// The 32-bit value four little-endian bytes stand for.
pub open spec fn le_bytes_to_u32(s: Seq<u8>) -> u32
    recommends
        s.len() == 4,
{
    (s[0] as u32) | ((s[1] as u32) << 8) | ((s[2] as u32) << 16) | ((s[3] as u32) << 24)
}

/// Serialize a 32-bit value into its four little-endian bytes.
pub fn u32_to_le(v: u32) -> (r: Vec<u8>)
    ensures
        r@ == le_bytes_of_u32(v),
        r@.len() == 4,
{
    proof {
        assert(v & 0xff < 256 && (v >> 8) & 0xff < 256 && (v >> 16) & 0xff < 256 && (v >> 24)
            & 0xff < 256) by (bit_vector);
    }
    let r: Vec<u8> = vec![
        (v & 0xff) as u8,
        ((v >> 8) & 0xff) as u8,
        ((v >> 16) & 0xff) as u8,
        ((v >> 24) & 0xff) as u8,
    ];
    proof {
        assert(r@ =~= le_bytes_of_u32(v));
    }
    r
}

/// Deserialize a 32-bit value from four little-endian bytes.
pub fn u32_from_le(bytes: &[u8]) -> (r: u32)
    requires
        bytes@.len() == 4,
    ensures
        r == le_bytes_to_u32(bytes@),
{
    (bytes[0] as u32) | ((bytes[1] as u32) << 8) | ((bytes[2] as u32) << 16) | ((
    bytes[3] as u32) << 24)
}

/// Writing a 32-bit value as four little-endian bytes and reading those
/// bytes back yields the value again, for every value.
pub proof fn lemma_le_u32_round_trip(v: u32)
    ensures
        le_bytes_to_u32(le_bytes_of_u32(v)) == v,
{
    let s = le_bytes_of_u32(v);
    assert(s[0] == (v & 0xff) as u8 && s[1] == ((v >> 8) & 0xff) as u8 && s[2] == ((v >> 16)
        & 0xff) as u8 && s[3] == ((v >> 24) & 0xff) as u8);
    assert((((v & 0xff) as u8) as u32) | ((((v >> 8) & 0xff) as u8) as u32) << 8 | ((((v >> 16)
        & 0xff) as u8) as u32) << 16 | ((((v >> 24) & 0xff) as u8) as u32) << 24 == v)
        by (bit_vector);
}

} // verus!
