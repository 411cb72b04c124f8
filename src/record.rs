//! The byte layout shared by the records that bind to an entity: a kind
//! byte, the bump, six bytes of padding and the entity's address, 40 bytes.

use vstd::prelude::*;
use crate::address::{Address, ADDRESS_LEN};

verus! {

/// The byte length of a record bound to an entity.
pub const BOUND_RECORD_LEN: usize = 40;

/// Six zero bytes of padding.
pub open spec fn zero_padding() -> Seq<u8> {
    seq![0u8, 0, 0, 0, 0, 0]
}

/// The bytes of a bound record.
pub open spec fn bound_image(key: u8, bump: u8, padding: Seq<u8>, entity: Seq<u8>) -> Seq<u8> {
    seq![key, bump] + padding + entity
}

/// Writes a bound record in its byte layout.
pub fn encode_bound(key: u8, bump: u8, padding: &[u8; 6], entity: &Address) -> (r: Vec<u8>)
    ensures
        r@ == bound_image(key, bump, padding@, entity@),
        r@.len() == BOUND_RECORD_LEN,
{
    let mut r: Vec<u8> = Vec::new();
    r.push(key);
    r.push(bump);
    let mut i: usize = 0;
    while i < 6
        invariant
            i <= 6,
            r@ == seq![key, bump] + padding@.subrange(0, i as int),
        decreases 6 - i,
    {
        r.push(padding[i]);
        assert(padding@.subrange(0, i + 1) =~= padding@.subrange(0, i as int).push(padding@[i as int]));
        i = i + 1;
    }
    assert(padding@.subrange(0, 6) =~= padding@);
    append_address(&mut r, entity);
    r
}

/// Appends the 32 bytes of an address.
pub fn append_address(out: &mut Vec<u8>, a: &Address)
    ensures
        final(out)@ == old(out)@ + a@,
{
    let mut i: usize = 0;
    while i < ADDRESS_LEN
        invariant
            i <= ADDRESS_LEN,
            a@.len() == ADDRESS_LEN,
            out@ == old(out)@ + a@.subrange(0, i as int),
        decreases ADDRESS_LEN - i,
    {
        out.push(a.bytes[i]);
        assert(a@.subrange(0, i + 1) =~= a@.subrange(0, i as int).push(a@[i as int]));
        i = i + 1;
    }
    assert(a@.subrange(0, ADDRESS_LEN as int) =~= a@);
}

/// Reads the address that starts at `start`.
pub fn read_address(data: &[u8], start: usize) -> (r: Address)
    requires
        start + ADDRESS_LEN <= data@.len(),
    ensures
        r@ == data@.subrange(start as int, start + ADDRESS_LEN),
{
    let mut bytes: [u8; 32] = [0u8; 32];
    let len = data.len();
    let mut i: usize = 0;
    while i < ADDRESS_LEN
        invariant
            i <= ADDRESS_LEN,
            len == data@.len(),
            start + ADDRESS_LEN <= data@.len(),
            bytes@.len() == ADDRESS_LEN,
            forall|j: int| 0 <= j < i ==> bytes@[j] == data@[start + j],
        decreases ADDRESS_LEN - i,
    {
        bytes[i] = data[start + i];
        i = i + 1;
    }
    assert(bytes@ =~= data@.subrange(start as int, start + ADDRESS_LEN));
    Address { bytes }
}

/// Reads the six padding bytes that start at `start`.
pub fn read_padding(data: &[u8], start: usize) -> (r: [u8; 6])
    requires
        start + 6 <= data@.len(),
    ensures
        r@ == data@.subrange(start as int, start + 6),
{
    let mut bytes: [u8; 6] = [0u8; 6];
    let len = data.len();
    let mut i: usize = 0;
    while i < 6
        invariant
            i <= 6,
            len == data@.len(),
            start + 6 <= data@.len(),
            bytes@.len() == 6,
            forall|j: int| 0 <= j < i ==> bytes@[j] == data@[start + j],
        decreases 6 - i,
    {
        bytes[i] = data[start + i];
        i = i + 1;
    }
    assert(bytes@ =~= data@.subrange(start as int, start + 6));
    bytes
}

/// Reads a bound record from the head of a buffer: `None` where the buffer is
/// shorter than the record.
pub fn decode_bound(data: &[u8]) -> (r: Option<(u8, u8, [u8; 6], Address)>)
    ensures
        r is None <==> data@.len() < BOUND_RECORD_LEN,
        r matches Some((k, b, p, e)) ==> bound_image(k, b, p@, e@) == data@.subrange(0, BOUND_RECORD_LEN as int),
{
    if data.len() < BOUND_RECORD_LEN {
        return None;
    }
    let padding = read_padding(data, 2);
    let entity = read_address(data, 8);
    let r = (data[0], data[1], padding, entity);
    assert(bound_image(data[0], data[1], padding@, entity@) =~= data@.subrange(0, BOUND_RECORD_LEN as int));
    Some(r)
}

/// The two bytes at `start`, read as a little-endian integer.
pub open spec fn u16_le(data: Seq<u8>, start: int) -> u16 {
    (data[start] as int + 256 * data[start + 1] as int) as u16
}

/// The little-endian bytes of a `u16`.
pub open spec fn le_bytes_u16(v: u16) -> Seq<u8> {
    seq![(v % 256) as u8, (v / 256) as u8]
}

/// The little-endian bytes of a `u32`.
pub open spec fn le_bytes_u32(v: u32) -> Seq<u8> {
    seq![(v % 256) as u8, ((v / 256) % 256) as u8, ((v / 65536) % 256) as u8, (v / 16777216) as u8]
}

/// Reads a little-endian `u16` at `start`.
pub fn read_u16_le(data: &[u8], start: usize) -> (r: u16)
    requires
        start + 2 <= data@.len(),
    ensures
        r == u16_le(data@, start as int),
{
    let b0 = data[start] as u16;
    let b1 = data[start + 1] as u16;
    b0 + 256 * b1
}

/// The four bytes at `start`, read as a little-endian integer.
pub open spec fn u32_le(data: Seq<u8>, start: int) -> u32 {
    (data[start] as int + 256 * data[start + 1] as int + 65536 * data[start + 2] as int
        + 16777216 * data[start + 3] as int) as u32
}

/// Reads a little-endian `u32` at `start`.
pub fn read_u32_le(data: &[u8], start: usize) -> (r: u32)
    requires
        start + 4 <= data@.len(),
    ensures
        r == u32_le(data@, start as int),
{
    let b0 = data[start] as u32;
    let b1 = data[start + 1] as u32;
    let b2 = data[start + 2] as u32;
    let b3 = data[start + 3] as u32;
    b0 + 256 * b1 + 65536 * b2 + 16777216 * b3
}

} // verus!
