//! Fixed-width integers on the wire, read and written with the `byteorder` crate.
use vstd::prelude::*;
use vstd::bytes::*;

use byteorder::{BigEndian, ByteOrder, LittleEndian, WriteBytesExt};

verus! {

/// The big-endian bytes of a `u16`: its little-endian bytes in reverse order.
pub open spec fn spec_u16_to_be_bytes(x: u16) -> Seq<u8> {
    spec_u16_to_le_bytes(x).reverse()
}

/// The `u16` whose big-endian bytes are `s`.
pub open spec fn spec_u16_from_be_bytes(s: Seq<u8>) -> u16 {
    spec_u16_from_le_bytes(s.reverse())
}

/// `byteorder::LittleEndian::read_u16` on the bytes from `pos`: the
/// little-endian value of the two bytes at `pos`.
#[verifier::external_body]
pub(crate) fn read_u16_le(data: &Vec<u8>, pos: usize) -> (n: u16)
    requires
        pos + 2 <= data@.len(),
    ensures
        n == spec_u16_from_le_bytes(data@.subrange(pos as int, pos + 2)),
{
    LittleEndian::read_u16(&data[pos..])
}

/// `byteorder::LittleEndian::read_u32` on the bytes from `pos`: the
/// little-endian value of the four bytes at `pos`.
#[verifier::external_body]
pub(crate) fn read_u32_le(data: &Vec<u8>, pos: usize) -> (n: u32)
    requires
        pos + 4 <= data@.len(),
    ensures
        n == spec_u32_from_le_bytes(data@.subrange(pos as int, pos + 4)),
{
    LittleEndian::read_u32(&data[pos..])
}

/// `byteorder::LittleEndian::read_u64` on the bytes from `pos`: the
/// little-endian value of the eight bytes at `pos`.
#[verifier::external_body]
pub(crate) fn read_u64_le(data: &Vec<u8>, pos: usize) -> (n: u64)
    requires
        pos + 8 <= data@.len(),
    ensures
        n == spec_u64_from_le_bytes(data@.subrange(pos as int, pos + 8)),
{
    LittleEndian::read_u64(&data[pos..])
}

/// `byteorder::LittleEndian::read_i16`: the two bytes at `pos` read as a
/// little-endian `u16` and reinterpreted as two's complement.
#[verifier::external_body]
pub(crate) fn read_i16_le(data: &Vec<u8>, pos: usize) -> (n: i16)
    requires
        pos + 2 <= data@.len(),
    ensures
        n == spec_u16_from_le_bytes(data@.subrange(pos as int, pos + 2)) as i16,
{
    LittleEndian::read_i16(&data[pos..])
}

/// `byteorder::LittleEndian::read_i32`: the four bytes at `pos` read as a
/// little-endian `u32` and reinterpreted as two's complement.
#[verifier::external_body]
pub(crate) fn read_i32_le(data: &Vec<u8>, pos: usize) -> (n: i32)
    requires
        pos + 4 <= data@.len(),
    ensures
        n == spec_u32_from_le_bytes(data@.subrange(pos as int, pos + 4)) as i32,
{
    LittleEndian::read_i32(&data[pos..])
}

/// `byteorder::LittleEndian::read_i64`: the eight bytes at `pos` read as a
/// little-endian `u64` and reinterpreted as two's complement.
#[verifier::external_body]
pub(crate) fn read_i64_le(data: &Vec<u8>, pos: usize) -> (n: i64)
    requires
        pos + 8 <= data@.len(),
    ensures
        n == spec_u64_from_le_bytes(data@.subrange(pos as int, pos + 8)) as i64,
{
    LittleEndian::read_i64(&data[pos..])
}

/// `byteorder::BigEndian::read_u16` on the bytes from `pos`: the big-endian
/// value of the two bytes at `pos`.
#[verifier::external_body]
pub(crate) fn read_u16_be(data: &Vec<u8>, pos: usize) -> (n: u16)
    requires
        pos + 2 <= data@.len(),
    ensures
        n == spec_u16_from_be_bytes(data@.subrange(pos as int, pos + 2)),
{
    BigEndian::read_u16(&data[pos..])
}

/// `WriteBytesExt::write_u8` on a `Vec<u8>`: appends the byte. Writing to a
/// vector always succeeds, so the result is `true`.
#[verifier::external_body]
pub(crate) fn write_u8(w: &mut Vec<u8>, n: u8) -> (ok: bool)
    ensures
        ok,
        final(w)@ == old(w)@.push(n),
{
    w.write_u8(n).is_ok()
}

/// `WriteBytesExt::write_i8` on a `Vec<u8>`: appends the two's complement byte.
#[verifier::external_body]
pub(crate) fn write_i8(w: &mut Vec<u8>, n: i8) -> (ok: bool)
    ensures
        ok,
        final(w)@ == old(w)@.push(n as u8),
{
    w.write_i8(n).is_ok()
}

/// `WriteBytesExt::write_u16::<LittleEndian>` on a `Vec<u8>`: appends the
/// two little-endian bytes.
#[verifier::external_body]
pub(crate) fn write_u16_le(w: &mut Vec<u8>, n: u16) -> (ok: bool)
    ensures
        ok,
        final(w)@ == old(w)@ + spec_u16_to_le_bytes(n),
{
    w.write_u16::<LittleEndian>(n).is_ok()
}

/// `WriteBytesExt::write_u32::<LittleEndian>` on a `Vec<u8>`: appends the
/// four little-endian bytes.
#[verifier::external_body]
pub(crate) fn write_u32_le(w: &mut Vec<u8>, n: u32) -> (ok: bool)
    ensures
        ok,
        final(w)@ == old(w)@ + spec_u32_to_le_bytes(n),
{
    w.write_u32::<LittleEndian>(n).is_ok()
}

/// `WriteBytesExt::write_u64::<LittleEndian>` on a `Vec<u8>`: appends the
/// eight little-endian bytes.
#[verifier::external_body]
pub(crate) fn write_u64_le(w: &mut Vec<u8>, n: u64) -> (ok: bool)
    ensures
        ok,
        final(w)@ == old(w)@ + spec_u64_to_le_bytes(n),
{
    w.write_u64::<LittleEndian>(n).is_ok()
}

/// `WriteBytesExt::write_i16::<LittleEndian>` on a `Vec<u8>`: appends the
/// little-endian bytes of the two's complement value.
#[verifier::external_body]
pub(crate) fn write_i16_le(w: &mut Vec<u8>, n: i16) -> (ok: bool)
    ensures
        ok,
        final(w)@ == old(w)@ + spec_u16_to_le_bytes(n as u16),
{
    w.write_i16::<LittleEndian>(n).is_ok()
}

/// `WriteBytesExt::write_i32::<LittleEndian>` on a `Vec<u8>`: appends the
/// little-endian bytes of the two's complement value.
#[verifier::external_body]
pub(crate) fn write_i32_le(w: &mut Vec<u8>, n: i32) -> (ok: bool)
    ensures
        ok,
        final(w)@ == old(w)@ + spec_u32_to_le_bytes(n as u32),
{
    w.write_i32::<LittleEndian>(n).is_ok()
}

/// `WriteBytesExt::write_i64::<LittleEndian>` on a `Vec<u8>`: appends the
/// little-endian bytes of the two's complement value.
#[verifier::external_body]
pub(crate) fn write_i64_le(w: &mut Vec<u8>, n: i64) -> (ok: bool)
    ensures
        ok,
        final(w)@ == old(w)@ + spec_u64_to_le_bytes(n as u64),
{
    w.write_i64::<LittleEndian>(n).is_ok()
}

/// `WriteBytesExt::write_u16::<BigEndian>` on a `Vec<u8>`: appends the two
/// big-endian bytes.
#[verifier::external_body]
pub(crate) fn write_u16_be(w: &mut Vec<u8>, n: u16) -> (ok: bool)
    ensures
        ok,
        final(w)@ == old(w)@ + spec_u16_to_be_bytes(n),
{
    w.write_u16::<BigEndian>(n).is_ok()
}

/// Appends `bytes` to `w`, one byte after another.
pub fn append_bytes(w: &mut Vec<u8>, bytes: &[u8])
    ensures
        final(w)@ == old(w)@ + bytes@,
{
    let ghost start = w@;
    let mut i: usize = 0;
    while i < bytes.len()
        invariant
            i <= bytes@.len(),
            w@ == start + bytes@.subrange(0, i as int),
        decreases bytes.len() - i,
    {
        w.push(bytes[i]);
        i = i + 1;
        assert(w@ =~= start + bytes@.subrange(0, i as int));
    }
    assert(bytes@.subrange(0, bytes@.len() as int) =~= bytes@);
}

} // verus!
