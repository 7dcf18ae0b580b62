use vstd::prelude::*;

use crate::encode::cursor::Cursor;
use crate::encode::encode::{Decodable, Encodable};
use crate::encode::error::Error;

verus! {

/// The `ping` message: a nonce that the peer echoes in its `pong`.
#[derive(Debug, PartialEq, Eq)]
pub struct Ping {
    pub nonce: u64,
}

impl DeepView for Ping {
    type V = u64;

    open spec fn deep_view(&self) -> u64 {
        self.nonce
    }
}

impl Encodable for Ping {
    open spec fn spec_encode(nonce: u64) -> Seq<u8> {
        u64::spec_encode(nonce)
    }

    fn encode(&self, w: &mut Vec<u8>) -> (r: Result<(), Error>) {
        match self.nonce.encode(w) {
            Ok(_) => Ok(()),
            Err(_) => Err(Error::PingNonce),
        }
    }
}

impl Decodable for Ping {
    /// The nonce as a little-endian `u64` (`PingNonce` when missing).
    open spec fn spec_decode(data: Seq<u8>, pos: int) -> (Result<u64, Error>, int) {
        let (n, p) = u64::spec_decode(data, pos);
        match n {
            Err(_) => (Err(Error::PingNonce), p),
            Ok(nonce) => (Ok(nonce), p),
        }
    }

    fn decode(r: &mut Cursor) -> (res: Result<Ping, Error>) {
        let ghost expected = <Ping as Decodable>::spec_decode(r.data(), r.pos());
        let nonce = match u64::decode(r) {
            Ok(n) => n,
            Err(_) => return Err(Error::PingNonce),
        };
        Ok(Ping { nonce: nonce })
    }
}

} // verus!
