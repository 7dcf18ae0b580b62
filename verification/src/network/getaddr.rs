use vstd::prelude::*;

use crate::encode::cursor::Cursor;
use crate::encode::encode::{Decodable, Encodable};
use crate::encode::error::Error;

verus! {

/// The `getaddr` message: a request for known peers. It has no payload.
#[derive(Debug, PartialEq, Eq)]
pub struct GetAddr {}

impl DeepView for GetAddr {
    type V = ();

    open spec fn deep_view(&self) -> () {
        ()
    }
}

impl Encodable for GetAddr {
    open spec fn spec_encode(v: ()) -> Seq<u8> {
        Seq::empty()
    }

    fn encode(&self, w: &mut Vec<u8>) -> (r: Result<(), Error>) {
        assert(w@ + Seq::<u8>::empty() =~= w@);
        Ok(())
    }
}

impl Decodable for GetAddr {
    /// Reads nothing and always succeeds.
    open spec fn spec_decode(data: Seq<u8>, pos: int) -> (Result<(), Error>, int) {
        (Ok(()), pos)
    }

    fn decode(r: &mut Cursor) -> (res: Result<GetAddr, Error>) {
        let ghost expected = <GetAddr as Decodable>::spec_decode(r.data(), r.pos());
        Ok(GetAddr {})
    }
}

} // verus!
