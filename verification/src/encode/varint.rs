//! Variable length integers (the "CompactSize" of the Bitcoin protocol).
//!
//! A value below 0xFD takes one byte; up to 0xFFFF it is 0xFD followed by the
//! value as a little-endian `u16`; up to 0xFFFF_FFFF it is 0xFE followed by a
//! `u32`; otherwise 0xFF followed by a `u64`.
use vstd::prelude::*;
use vstd::bytes::*;

use crate::encode::cursor::Cursor;
use crate::encode::encode::{field, holds_at, Decodable, Encodable};
use crate::encode::error::Error;
use crate::encode::wire::{write_u16_le, write_u32_le, write_u64_le, write_u8};

verus! {

/// A variable length integer.
pub struct VarInt(pub u64);

impl DeepView for VarInt {
    type V = u64;

    open spec fn deep_view(&self) -> u64 {
        self.0
    }
}

impl VarInt {
    pub fn new(v: u64) -> (r: VarInt)
        ensures
            r.0 == v,
    {
        VarInt(v)
    }
}

/// The number of bytes that encode `v`.
pub open spec fn spec_varint_len(v: u64) -> int {
    if v <= 0xFC {
        1
    } else if v <= 0xFFFF {
        3
    } else if v <= 0xFFFF_FFFF {
        5
    } else {
        9
    }
}

impl Encodable for VarInt {
    open spec fn spec_encode(v: u64) -> Seq<u8> {
        if v <= 0xFC {
            seq![v as u8]
        } else if v <= 0xFFFF {
            seq![0xFDu8] + spec_u16_to_le_bytes(v as u16)
        } else if v <= 0xFFFF_FFFF {
            seq![0xFEu8] + spec_u32_to_le_bytes(v as u32)
        } else {
            seq![0xFFu8] + spec_u64_to_le_bytes(v)
        }
    }

    fn encode(&self, w: &mut Vec<u8>) -> (r: Result<(), Error>) {
        let ghost start = w@;
        let size_enc: u8 = if self.0 <= 0xFC {
            self.0 as u8
        } else if self.0 <= 0xFFFF {
            0xFD
        } else if self.0 <= 0xFFFF_FFFF {
            0xFE
        } else {
            0xFF
        };
        if !write_u8(w, size_enc) {
            return Err(Error::VarInt);
        }
        if self.0 <= 0xFC {
        } else if self.0 <= 0xFFFF {
            if !write_u16_le(w, self.0 as u16) {
                return Err(Error::VarIntFD);
            }
        } else if self.0 <= 0xFFFF_FFFF {
            if !write_u32_le(w, self.0 as u32) {
                return Err(Error::VarIntFE);
            }
        } else {
            if !write_u64_le(w, self.0) {
                return Err(Error::VarIntFF);
            }
        }
        proof {
            assert(w@ =~= start + Self::spec_encode(self.0));
        }
        Ok(())
    }
}

impl Decodable for VarInt {
    /// The tag byte, then the payload that the tag announces; a missing tag
    /// leaves the position unchanged, a short payload leaves it after the tag.
    open spec fn spec_decode(data: Seq<u8>, pos: int) -> (Result<u64, Error>, int) {
        match field(data, pos, 1) {
            None => (Err(Error::VarInt), pos),
            Some(tag) => {
                if tag[0] == 0xFD {
                    match field(data, pos + 1, 2) {
                        Some(b) => (Ok(spec_u16_from_le_bytes(b) as u64), pos + 3),
                        None => (Err(Error::VarIntFD), pos + 1),
                    }
                } else if tag[0] == 0xFE {
                    match field(data, pos + 1, 4) {
                        Some(b) => (Ok(spec_u32_from_le_bytes(b) as u64), pos + 5),
                        None => (Err(Error::VarIntFE), pos + 1),
                    }
                } else if tag[0] == 0xFF {
                    match field(data, pos + 1, 8) {
                        Some(b) => (Ok(spec_u64_from_le_bytes(b)), pos + 9),
                        None => (Err(Error::VarIntFF), pos + 1),
                    }
                } else {
                    (Ok(tag[0] as u64), pos + 1)
                }
            },
        }
    }

    fn decode(r: &mut Cursor) -> (res: Result<VarInt, Error>) {
        let varlen = match u8::decode(r) {
            Ok(b) => b,
            Err(_) => return Err(Error::VarInt),
        };
        match varlen {
            0xFD => match u16::decode(r) {
                Ok(v) => Ok(VarInt::new(v as u64)),
                Err(_) => Err(Error::VarIntFD),
            },
            0xFE => match u32::decode(r) {
                Ok(v) => Ok(VarInt::new(v as u64)),
                Err(_) => Err(Error::VarIntFE),
            },
            0xFF => match u64::decode(r) {
                Ok(v) => Ok(VarInt::new(v)),
                Err(_) => Err(Error::VarIntFF),
            },
            _ => Ok(VarInt::new(varlen as u64)),
        }
    }
}

/// Decoding the bytes that encode `v` gives `v` back, with the cursor right
/// after them, whatever surrounds them.
pub proof fn lemma_varint_roundtrip(v: u64, data: Seq<u8>, pos: int)
    requires
        holds_at(data, pos, VarInt::spec_encode(v)),
    ensures
        VarInt::spec_encode(v).len() == spec_varint_len(v),
        VarInt::spec_decode(data, pos) == (
            Ok::<u64, Error>(v),
            pos + VarInt::spec_encode(v).len(),
        ),
{
    lemma_auto_spec_u16_to_from_le_bytes();
    lemma_auto_spec_u32_to_from_le_bytes();
    lemma_auto_spec_u64_to_from_le_bytes();
    let enc = VarInt::spec_encode(v);
    let n = enc.len() as int;
    assert(data.subrange(pos, pos + n) == enc);
    assert(data[pos] == enc[0]);
    assert(field(data, pos, 1) == Some(data.subrange(pos, pos + 1)));
    assert(data.subrange(pos, pos + 1)[0] == data[pos]);
    if v <= 0xFC {
        assert((v as u8) as u64 == v);
    } else if v <= 0xFFFF {
        assert(data.subrange(pos + 1, pos + 3) =~= enc.subrange(1, 3));
        assert(enc.subrange(1, 3) =~= spec_u16_to_le_bytes(v as u16));
        assert((v as u16) as u64 == v);
    } else if v <= 0xFFFF_FFFF {
        assert(data.subrange(pos + 1, pos + 5) =~= enc.subrange(1, 5));
        assert(enc.subrange(1, 5) =~= spec_u32_to_le_bytes(v as u32));
        assert((v as u32) as u64 == v);
    } else {
        assert(data.subrange(pos + 1, pos + 9) =~= enc.subrange(1, 9));
        assert(enc.subrange(1, 9) =~= spec_u64_to_le_bytes(v));
    }
}

} // verus!
