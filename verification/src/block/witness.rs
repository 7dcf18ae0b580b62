use vstd::prelude::*;

use crate::encode::cursor::Cursor;
use crate::encode::encode::{decode_var_bytes, spec_decode_var_bytes, Decodable};
use crate::encode::error::Error;
use crate::encode::list::{decode_counted, spec_decode_counted};

verus! {

/// One witness item: a length-prefixed byte string.
#[derive(Debug)]
pub struct Witness {
    pub data: Vec<u8>,
}

/// The witnesses of a transaction.
pub type Witnesses = Vec<Witness>;

impl DeepView for Witness {
    type V = Seq<u8>;

    open spec fn deep_view(&self) -> Seq<u8> {
        self.data@
    }
}

impl Decodable for Vec<Witness> {
    /// A count (`WitnessesCount` when missing), then that many witnesses.
    open spec fn spec_decode(data: Seq<u8>, pos: int) -> (Result<Seq<Seq<u8>>, Error>, int) {
        spec_decode_counted::<Witness>(data, pos, Error::WitnessesCount)
    }

    fn decode(r: &mut Cursor) -> (res: Result<Vec<Witness>, Error>) {
        let ghost expected = <Vec<Witness> as Decodable>::spec_decode(r.data(), r.pos());
        decode_counted::<Witness>(r, Error::WitnessesCount)
    }
}

impl Decodable for Witness {
    /// The length (`WitnessLen` when missing), then that many bytes
    /// (`WitnessData` when they run out).
    open spec fn spec_decode(data: Seq<u8>, pos: int) -> (Result<Seq<u8>, Error>, int) {
        spec_decode_var_bytes(data, pos, Error::WitnessLen, Error::WitnessData)
    }

    fn decode(r: &mut Cursor) -> (res: Result<Witness, Error>) {
        let ghost expected = <Witness as Decodable>::spec_decode(r.data(), r.pos());
        let data = match decode_var_bytes(r, Error::WitnessLen, Error::WitnessData) {
            Ok(d) => d,
            Err(e) => return Err(e),
        };
        proof {
            assert(data.deep_view() =~= data@);
        }
        Ok(Witness { data: data })
    }
}

} // verus!
