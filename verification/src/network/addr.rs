//! The `addr` message: addresses of other nodes of the network.
use vstd::prelude::*;

use crate::encode::cursor::Cursor;
use crate::encode::encode::{Decodable, Encodable};
use crate::encode::error::Error;
use crate::network::networkaddr::{SpecTimedNetworkAddr, TimedNetworkAddr};

verus! {

/// The `addr` message: known nodes, each with the time it was last seen.
/// A count (at most 1000 in practice) precedes the addresses.
#[derive(Debug, PartialEq, Eq)]
pub struct Addr {
    pub addrs: Vec<TimedNetworkAddr>,
}

impl DeepView for Addr {
    type V = Seq<SpecTimedNetworkAddr>;

    open spec fn deep_view(&self) -> Seq<SpecTimedNetworkAddr> {
        self.addrs.deep_view()
    }
}

impl Encodable for Addr {
    open spec fn spec_encode(addrs: Seq<SpecTimedNetworkAddr>) -> Seq<u8> {
        <Vec<TimedNetworkAddr> as Encodable>::spec_encode(addrs)
    }

    fn encode(&self, w: &mut Vec<u8>) -> (r: Result<(), Error>) {
        self.addrs.encode(w)
    }
}

impl Decodable for Addr {
    /// The counted list of addresses; its errors are passed on.
    open spec fn spec_decode(data: Seq<u8>, pos: int) -> (Result<Seq<SpecTimedNetworkAddr>, Error>, int) {
        <Vec<TimedNetworkAddr> as Decodable>::spec_decode(data, pos)
    }

    fn decode(r: &mut Cursor) -> (res: Result<Addr, Error>) {
        let ghost expected = <Addr as Decodable>::spec_decode(r.data(), r.pos());
        let addrs = match <Vec<TimedNetworkAddr>>::decode(r) {
            Ok(a) => a,
            Err(e) => return Err(e),
        };
        Ok(Addr { addrs: addrs })
    }
}

} // verus!
