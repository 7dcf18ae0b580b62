use vstd::prelude::*;

use crate::encode::cursor::Cursor;
use crate::encode::encode::{decode_var_bytes, spec_decode_var_bytes, Decodable, Encodable};
use crate::encode::error::Error;
use crate::encode::varint::VarInt;

verus! {

/// The `alert` message, kept as its raw signed bytes.
#[derive(Debug, PartialEq, Eq)]
pub struct Alert {
    pub data: Vec<u8>,
}

impl DeepView for Alert {
    type V = Seq<u8>;

    open spec fn deep_view(&self) -> Seq<u8> {
        self.data@
    }
}

impl Encodable for Alert {
    /// The number of bytes, then the bytes.
    open spec fn spec_encode(data: Seq<u8>) -> Seq<u8> {
        VarInt::spec_encode(data.len() as u64) + data
    }

    fn encode(&self, w: &mut Vec<u8>) -> (r: Result<(), Error>) {
        let ghost start = w@;
        let varint = VarInt::new(self.data.len() as u64);
        let _ = varint.encode(w);
        let _ = self.data.encode(w);
        proof {
            assert(self.data.deep_view() =~= self.data@);
            assert(w@ =~= start + Self::spec_encode(self.data@));
        }
        Ok(())
    }
}

impl Decodable for Alert {
    /// The length (`AlertLen` when missing), then that many bytes
    /// (`AlertMessage` when they run out).
    open spec fn spec_decode(data: Seq<u8>, pos: int) -> (Result<Seq<u8>, Error>, int) {
        spec_decode_var_bytes(data, pos, Error::AlertLen, Error::AlertMessage)
    }

    fn decode(r: &mut Cursor) -> (res: Result<Alert, Error>) {
        let ghost expected = <Alert as Decodable>::spec_decode(r.data(), r.pos());
        let data = match decode_var_bytes(r, Error::AlertLen, Error::AlertMessage) {
            Ok(d) => d,
            Err(e) => return Err(e),
        };
        proof {
            assert(data.deep_view() =~= data@);
        }
        Ok(Alert { data: data })
    }
}

} // verus!
