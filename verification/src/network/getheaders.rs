use vstd::prelude::*;

use crate::encode::cursor::Cursor;
use crate::encode::encode::{Decodable, Encodable};
use crate::encode::error::Error;
use crate::utils::sha256::Sha256;

verus! {

/// The `getheaders` message: a request for block headers.
#[derive(Debug, PartialEq, Eq)]
pub struct GetHeaders {
    /// The protocol version.
    pub version: u32,
    /// Locator hashes, newest first. The peer answers from the first locator
    /// hash it knows, or from block 1 otherwise.
    pub locators: Vec<Sha256>,
    /// The header to stop at, or zero to fetch as many as the peer sends.
    pub stop: Sha256,
}

/// The model of a [`GetHeaders`].
pub struct SpecGetHeaders {
    pub version: u32,
    pub locators: Seq<Seq<u8>>,
    pub stop: Seq<u8>,
}

impl DeepView for GetHeaders {
    type V = SpecGetHeaders;

    open spec fn deep_view(&self) -> SpecGetHeaders {
        SpecGetHeaders {
            version: self.version,
            locators: self.locators.deep_view(),
            stop: self.stop.deep_view(),
        }
    }
}

impl Encodable for GetHeaders {
    /// The version, the counted locators, then the stop hash.
    open spec fn spec_encode(g: SpecGetHeaders) -> Seq<u8> {
        u32::spec_encode(g.version) + <Vec<Sha256> as Encodable>::spec_encode(g.locators)
            + g.stop
    }

    fn encode(&self, w: &mut Vec<u8>) -> (r: Result<(), Error>) {
        let ghost start = w@;
        if self.version.encode(w).is_err() {
            return Err(Error::GetHeadersVersion);
        }
        let ghost after_version = w@;
        if self.locators.encode(w).is_err() {
            return Err(Error::GetHeadersLocators);
        }
        let ghost after_locators = w@;
        if self.stop.encode(w).is_err() {
            return Err(Error::GetHeadersStop);
        }
        proof {
            assert(w@ =~= start + Self::spec_encode(self.deep_view()));
        }
        Ok(())
    }
}

impl Decodable for GetHeaders {
    /// The version (`GetHeadersVersion`), the locators (any failure there is
    /// `GetHeadersLocators`), then the stop hash (`GetHeadersStop`).
    open spec fn spec_decode(data: Seq<u8>, pos: int) -> (Result<SpecGetHeaders, Error>, int) {
        let (version, p1) = u32::spec_decode(data, pos);
        match version {
            Err(_) => (Err(Error::GetHeadersVersion), p1),
            Ok(v) => {
                let (locators, p2) = <Vec<Sha256> as Decodable>::spec_decode(data, p1);
                match locators {
                    Err(_) => (Err(Error::GetHeadersLocators), p2),
                    Ok(ls) => {
                        let (stop, p3) = Sha256::spec_decode(data, p2);
                        match stop {
                            Err(_) => (Err(Error::GetHeadersStop), p3),
                            Ok(s) => (
                                Ok(SpecGetHeaders { version: v, locators: ls, stop: s }),
                                p3,
                            ),
                        }
                    },
                }
            },
        }
    }

    fn decode(r: &mut Cursor) -> (res: Result<GetHeaders, Error>) {
        let ghost expected = <GetHeaders as Decodable>::spec_decode(r.data(), r.pos());
        let version = match u32::decode(r) {
            Ok(v) => v,
            Err(_) => return Err(Error::GetHeadersVersion),
        };
        let locators = match <Vec<Sha256> as Decodable>::decode(r) {
            Ok(l) => l,
            Err(_) => return Err(Error::GetHeadersLocators),
        };
        let stop = match Sha256::decode(r) {
            Ok(s) => s,
            Err(_) => return Err(Error::GetHeadersStop),
        };
        Ok(GetHeaders { version: version, locators: locators, stop: stop })
    }
}

/// Decodes a `getheaders` payload at the cursor.
pub fn decode(r: &mut Cursor) -> (res: Result<GetHeaders, Error>)
    ensures
        final(r).data() == old(r).data(),
        crate::encode::encode::decoded(
            res,
            final(r).pos(),
            GetHeaders::spec_decode(old(r).data(), old(r).pos()),
        ),
{
    GetHeaders::decode(r)
}

} // verus!
