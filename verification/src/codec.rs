//! Little-endian encodings of fixed-width integers.
//!
//! Every multi-byte number that this crate stores on a disk is written least
//! significant byte first. The functions here state that encoding over plain
//! arithmetic, so that the byte a given position holds can be read off the
//! contract.
use vstd::prelude::*;

verus! {

/// The four bytes of `value`, least significant first.
#[verifier::opaque]
pub open spec fn u32_le(value: u32) -> Seq<u8> {
    seq![
        (value % 256) as u8,
        (value / 0x100 % 256) as u8,
        (value / 0x1_0000 % 256) as u8,
        (value / 0x100_0000 % 256) as u8,
    ]
}

/// The number whose little-endian form is the first four bytes of `bytes`.
#[verifier::opaque]
pub open spec fn u32_from_le(bytes: Seq<u8>) -> u32
    recommends
        bytes.len() >= 4,
{
    (bytes[0] + bytes[1] * 0x100 + bytes[2] * 0x1_0000 + bytes[3] * 0x100_0000) as u32
}

/// The eight bytes of `value`, least significant first.
#[verifier::opaque]
pub open spec fn u64_le(value: u64) -> Seq<u8> {
    seq![
        (value % 256) as u8,
        (value / 0x100 % 256) as u8,
        (value / 0x1_0000 % 256) as u8,
        (value / 0x100_0000 % 256) as u8,
        (value / 0x1_0000_0000 % 256) as u8,
        (value / 0x100_0000_0000 % 256) as u8,
        (value / 0x1_0000_0000_0000 % 256) as u8,
        (value / 0x100_0000_0000_0000 % 256) as u8,
    ]
}

/// The number whose little-endian form is the first eight bytes of `bytes`.
#[verifier::opaque]
pub open spec fn u64_from_le(bytes: Seq<u8>) -> u64
    recommends
        bytes.len() >= 8,
{
    (bytes[0] + bytes[1] * 0x100 + bytes[2] * 0x1_0000 + bytes[3] * 0x100_0000 + bytes[4]
        * 0x1_0000_0000 + bytes[5] * 0x100_0000_0000 + bytes[6] * 0x1_0000_0000_0000 + bytes[7]
        * 0x100_0000_0000_0000) as u64
}

/// Decoding an encoded `u32` gives the number back.
pub proof fn lemma_u32_round_trip(value: u32)
    ensures
        u32_le(value).len() == 4,
        u32_from_le(u32_le(value)) == value,
{
    reveal(u32_le);
    reveal(u32_from_le);
    assert(value == (value % 256) + (value / 0x100 % 256) * 0x100 + (value / 0x1_0000 % 256)
        * 0x1_0000 + (value / 0x100_0000 % 256) * 0x100_0000) by (bit_vector);
}

/// Encoding a decoded `u32` gives the four bytes back.
pub proof fn lemma_u32_bytes_round_trip(bytes: Seq<u8>)
    requires
        bytes.len() == 4,
    ensures
        u32_le(u32_from_le(bytes)) == bytes,
{
    reveal(u32_le);
    reveal(u32_from_le);
    let (b0, b1, b2, b3) = (bytes[0], bytes[1], bytes[2], bytes[3]);
    let value = u32_from_le(bytes);
    assert(value == b0 + b1 * 0x100 + b2 * 0x1_0000 + b3 * 0x100_0000);
    assert(value % 256 == b0 && value / 0x100 % 256 == b1 && value / 0x1_0000 % 256 == b2 && value
        / 0x100_0000 % 256 == b3) by (bit_vector)
        requires
            value == b0 + b1 * 0x100 + b2 * 0x1_0000 + b3 * 0x100_0000,
    ;
    assert(u32_le(value) =~= bytes);
}

/// Decoding an encoded `u64` gives the number back.
pub proof fn lemma_u64_round_trip(value: u64)
    ensures
        u64_le(value).len() == 8,
        u64_from_le(u64_le(value)) == value,
{
    reveal(u64_le);
    reveal(u64_from_le);
    assert(value == (value % 256) + (value / 0x100 % 256) * 0x100 + (value / 0x1_0000 % 256)
        * 0x1_0000 + (value / 0x100_0000 % 256) * 0x100_0000 + (value / 0x1_0000_0000 % 256)
        * 0x1_0000_0000 + (value / 0x100_0000_0000 % 256) * 0x100_0000_0000 + (value
        / 0x1_0000_0000_0000 % 256) * 0x1_0000_0000_0000 + (value / 0x100_0000_0000_0000 % 256)
        * 0x100_0000_0000_0000) by (bit_vector);
}

/// Encoding a decoded `u64` gives the eight bytes back.
pub proof fn lemma_u64_bytes_round_trip(bytes: Seq<u8>)
    requires
        bytes.len() == 8,
    ensures
        u64_le(u64_from_le(bytes)) == bytes,
{
    reveal(u64_le);
    reveal(u64_from_le);
    let (b0, b1, b2, b3) = (bytes[0], bytes[1], bytes[2], bytes[3]);
    let (b4, b5, b6, b7) = (bytes[4], bytes[5], bytes[6], bytes[7]);
    let value = u64_from_le(bytes);
    assert(value == b0 + b1 * 0x100 + b2 * 0x1_0000 + b3 * 0x100_0000 + b4 * 0x1_0000_0000 + b5
        * 0x100_0000_0000 + b6 * 0x1_0000_0000_0000 + b7 * 0x100_0000_0000_0000);
    assert(value % 256 == b0 && value / 0x100 % 256 == b1 && value / 0x1_0000 % 256 == b2 && value
        / 0x100_0000 % 256 == b3 && value / 0x1_0000_0000 % 256 == b4 && value / 0x100_0000_0000
        % 256 == b5 && value / 0x1_0000_0000_0000 % 256 == b6 && value / 0x100_0000_0000_0000
        % 256 == b7) by (bit_vector)
        requires
            value == b0 + b1 * 0x100 + b2 * 0x1_0000 + b3 * 0x100_0000 + b4 * 0x1_0000_0000 + b5
                * 0x100_0000_0000 + b6 * 0x1_0000_0000_0000 + b7 * 0x100_0000_0000_0000,
    ;
    assert(u64_le(value) =~= bytes);
}

/// Encodes `value` as four little-endian bytes.
pub fn u32_to_le_bytes(value: u32) -> (bytes: [u8; 4])
    ensures
        bytes@ == u32_le(value),
{
    proof {
        reveal(u32_le);
    }
    let bytes = [
        (value % 256) as u8,
        (value / 0x100 % 256) as u8,
        (value / 0x1_0000 % 256) as u8,
        (value / 0x100_0000 % 256) as u8,
    ];
    assert(bytes@ =~= u32_le(value));
    bytes
}

/// Decodes four little-endian bytes.
pub fn u32_from_le_bytes(bytes: &[u8; 4]) -> (value: u32)
    ensures
        value == u32_from_le(bytes@),
{
    proof {
        reveal(u32_from_le);
    }
    bytes[0] as u32 + bytes[1] as u32 * 0x100 + bytes[2] as u32 * 0x1_0000 + bytes[3] as u32
        * 0x100_0000
}

/// Encodes `value` as eight little-endian bytes.
pub fn u64_to_le_bytes(value: u64) -> (bytes: [u8; 8])
    ensures
        bytes@ == u64_le(value),
{
    proof {
        reveal(u64_le);
    }
    let bytes = [
        (value % 256) as u8,
        (value / 0x100 % 256) as u8,
        (value / 0x1_0000 % 256) as u8,
        (value / 0x100_0000 % 256) as u8,
        (value / 0x1_0000_0000 % 256) as u8,
        (value / 0x100_0000_0000 % 256) as u8,
        (value / 0x1_0000_0000_0000 % 256) as u8,
        (value / 0x100_0000_0000_0000 % 256) as u8,
    ];
    assert(bytes@ =~= u64_le(value));
    bytes
}

/// Decodes eight little-endian bytes.
pub fn u64_from_le_bytes(bytes: &[u8; 8]) -> (value: u64)
    ensures
        value == u64_from_le(bytes@),
{
    proof {
        reveal(u64_from_le);
    }
    bytes[0] as u64 + bytes[1] as u64 * 0x100 + bytes[2] as u64 * 0x1_0000 + bytes[3] as u64
        * 0x100_0000 + bytes[4] as u64 * 0x1_0000_0000 + bytes[5] as u64 * 0x100_0000_0000
        + bytes[6] as u64 * 0x1_0000_0000_0000 + bytes[7] as u64 * 0x100_0000_0000_0000
}

/// Stores the eight little-endian bytes of `value` in `buffer` from `at` on.
pub fn store_u64_le(buffer: &mut [u8], at: usize, value: u64)
    requires
        at + 8 <= old(buffer)@.len(),
    ensures
        final(buffer)@.len() == old(buffer)@.len(),
        final(buffer)@.subrange(at as int, at + 8) == u64_le(value),
        forall|i: int|
            0 <= i < old(buffer)@.len() && !(at <= i < at + 8) ==> final(buffer)@[i] == old(
                buffer,
            )@[i],
{
    let bytes = u64_to_le_bytes(value);
    let ghost before = buffer@;
    let len = buffer.len();
    let mut i: usize = 0;
    while i < 8
        invariant
            i <= 8,
            at + 8 <= len == buffer@.len(),
            buffer@.len() == before.len(),
            forall|k: int| 0 <= k < i ==> buffer@[at + k] == bytes@[k],
            forall|k: int|
                0 <= k < before.len() && !(at <= k < at + 8) ==> buffer@[k] == before[k],
        decreases 8 - i,
    {
        buffer[at + i] = bytes[i];
        i = i + 1;
    }
    assert(buffer@.subrange(at as int, at + 8) =~= bytes@);
}

/// Reads the number whose eight little-endian bytes `buffer` holds from `at`
/// on.
pub fn load_u64_le(buffer: &[u8], at: usize) -> (value: u64)
    requires
        at + 8 <= buffer@.len(),
    ensures
        value == u64_from_le(buffer@.subrange(at as int, at + 8)),
{
    let bytes = [
        buffer[at],
        buffer[at + 1],
        buffer[at + 2],
        buffer[at + 3],
        buffer[at + 4],
        buffer[at + 5],
        buffer[at + 6],
        buffer[at + 7],
    ];
    assert(bytes@ =~= buffer@.subrange(at as int, at + 8));
    u64_from_le_bytes(&bytes)
}

} // verus!
