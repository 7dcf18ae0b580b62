use vstd::prelude::*;

use crate::encode::cursor::Cursor;
use crate::encode::encode::{decoded, with_error, Decodable};
use crate::encode::error::Error;

verus! {

/// A script (`scriptSig` or `scriptPubKey`): its raw bytes.
#[derive(Debug)]
pub struct Script {
    pub content: Vec<u8>,
}

impl DeepView for Script {
    type V = Seq<u8>;

    open spec fn deep_view(&self) -> Seq<u8> {
        self.content@
    }
}

impl Decodable for Script {
    /// A length-prefixed byte string; any failure is reported as `Script`.
    open spec fn spec_decode(data: Seq<u8>, pos: int) -> (Result<Seq<u8>, Error>, int) {
        with_error(<Vec<u8> as Decodable>::spec_decode(data, pos), Error::Script)
    }

    fn decode(r: &mut Cursor) -> (res: Result<Script, Error>) {
        let ghost expected = <Script as Decodable>::spec_decode(r.data(), r.pos());
        let content = match <Vec<u8> as Decodable>::decode(r) {
            Ok(c) => c,
            Err(_) => return Err(Error::Script),
        };
        proof {
            assert(content.deep_view() =~= content@);
        }
        Ok(Script { content: content })
    }
}

} // verus!
