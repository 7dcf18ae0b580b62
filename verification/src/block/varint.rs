//! Variable length integers as the block parser reads them: plain `u64`
//! values, with failures reported as [`DecodeError`].
use vstd::prelude::*;

use crate::block::error::DecodeError;
use crate::encode::cursor::Cursor;
use crate::encode::encode::{Decodable, Encodable};
use crate::encode::varint::VarInt;

verus! {

/// Decodes a variable length integer at the cursor.
pub fn decode(r: &mut Cursor) -> (res: Result<u64, DecodeError>)
    ensures
        final(r).data() == old(r).data(),
        final(r).pos() == VarInt::spec_decode(old(r).data(), old(r).pos()).1,
        match VarInt::spec_decode(old(r).data(), old(r).pos()).0 {
            Ok(v) => res == Ok::<u64, DecodeError>(v),
            Err(e) => res == Err::<u64, DecodeError>(DecodeError::spec_from_error(e)),
        },
{
    match VarInt::decode(r) {
        Ok(v) => Ok(v.0),
        Err(e) => Err(DecodeError::from_error(e)),
    }
}

/// Appends the variable length encoding of `size`.
pub fn encode(w: &mut Vec<u8>, size: u64) -> (r: Result<(), DecodeError>)
    ensures
        r is Ok,
        final(w)@ == old(w)@ + VarInt::spec_encode(size),
{
    let v = VarInt::new(size);
    match v.encode(w) {
        Ok(_) => Ok(()),
        Err(e) => Err(DecodeError::from_error(e)),
    }
}

} // verus!
