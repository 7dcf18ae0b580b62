//! Encoding traits whose errors are the message-level [`Error`].
use vstd::prelude::*;
use vstd::bytes::spec_u64_to_le_bytes;

use crate::encode::cursor::Cursor;
use crate::encode::wire::write_i64_le;
use crate::network::error::Error;

verus! {

/// A value that can be written to the wire.
pub trait Encodable: DeepView {
    /// The bytes that encode a value with model `v`.
    spec fn spec_encode(v: <Self as DeepView>::V) -> Seq<u8>;

    /// Appends the encoding of `self` to `w`; writing to a vector never fails.
    fn encode(&self, w: &mut Vec<u8>) -> (r: Result<(), Error>)
        ensures
            r is Ok,
            final(w)@ == old(w)@ + Self::spec_encode(self.deep_view()),
    ;
}

/// A value that can be read from the wire.
pub trait Decodable: Sized + DeepView {
    /// Decoding at `pos` in `data`: the value's model or the error, and the
    /// position after decoding.
    spec fn spec_decode(data: Seq<u8>, pos: int) -> (Result<<Self as DeepView>::V, Error>, int);

    /// Decodes a value at the cursor's position and moves the cursor past it.
    fn decode(r: &mut Cursor) -> (res: Result<Self, Error>)
        ensures
            final(r).data() == old(r).data(),
            final(r).pos() == Self::spec_decode(old(r).data(), old(r).pos()).1,
            match res {
                Ok(v) => Self::spec_decode(old(r).data(), old(r).pos()).0 == Ok::<
                    <Self as DeepView>::V,
                    Error,
                >(v.deep_view()),
                Err(e) => Self::spec_decode(old(r).data(), old(r).pos()).0 == Err::<
                    <Self as DeepView>::V,
                    Error,
                >(e),
            },
    ;
}

impl Encodable for i64 {
    /// Eight bytes, little-endian.
    open spec fn spec_encode(v: i64) -> Seq<u8> {
        spec_u64_to_le_bytes(v as u64)
    }

    fn encode(&self, w: &mut Vec<u8>) -> (r: Result<(), Error>) {
        let _ = write_i64_le(w, *self);
        Ok(())
    }
}

} // verus!
