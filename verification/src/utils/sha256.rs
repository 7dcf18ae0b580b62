use vstd::prelude::*;

use crate::encode::cursor::Cursor;
use crate::encode::encode::{Decodable, Encodable};
use crate::encode::error::Error;
use crate::encode::list::{decode_counted, encode_counted, spec_decode_counted, spec_encode_counted};
use crate::encode::wire::append_bytes;
use sha2::Digest;

verus! {

/// The SHA-256 hash of `data`, as `sha2::Sha256::digest` computes it.
pub uninterp spec fn spec_sha256(data: Seq<u8>) -> Seq<u8>;

/// `sha2::Sha256::digest`: the 32-byte SHA-256 hash of `data`.
///
/// The contract only names the hash (`spec_sha256` of the bytes); nothing
/// about its value is stated or proved here.
#[verifier::external_body]
pub(crate) fn sha256_digest(data: &[u8]) -> (h: [u8; 32])
    ensures
        h@ == spec_sha256(data@),
{
    let digest = sha2::Sha256::digest(data);
    let mut h = [0u8; 32];
    h.copy_from_slice(digest.as_slice());
    h
}

/// A 32-byte hash, as it appears in block locators.
#[derive(Debug, PartialEq, Eq)]
pub struct Sha256 {
    pub hash: [u8; 32],
}

impl DeepView for Sha256 {
    type V = Seq<u8>;

    open spec fn deep_view(&self) -> Seq<u8> {
        self.hash.deep_view()
    }
}

impl Encodable for Sha256 {
    open spec fn spec_encode(h: Seq<u8>) -> Seq<u8> {
        h
    }

    fn encode(&self, w: &mut Vec<u8>) -> (r: Result<(), Error>) {
        append_bytes(w, self.hash.as_slice());
        proof {
            assert(self.hash.deep_view() =~= self.hash@);
        }
        Ok(())
    }
}

impl Decodable for Sha256 {
    /// Thirty-two bytes (`ReadSha256` when missing).
    open spec fn spec_decode(data: Seq<u8>, pos: int) -> (Result<Seq<u8>, Error>, int) {
        let (h, p) = <[u8; 32] as Decodable>::spec_decode(data, pos);
        match h {
            Err(_) => (Err(Error::ReadSha256), p),
            Ok(bytes) => (Ok(bytes), p),
        }
    }

    fn decode(r: &mut Cursor) -> (res: Result<Sha256, Error>) {
        let ghost expected = <Sha256 as Decodable>::spec_decode(r.data(), r.pos());
        let hash = match <[u8; 32]>::decode(r) {
            Ok(h) => h,
            Err(_) => return Err(Error::ReadSha256),
        };
        Ok(Sha256 { hash: hash })
    }
}

impl Decodable for Vec<Sha256> {
    /// The number of hashes (`Sha256Count` when missing), then the hashes.
    open spec fn spec_decode(data: Seq<u8>, pos: int) -> (Result<Seq<Seq<u8>>, Error>, int) {
        spec_decode_counted::<Sha256>(data, pos, Error::Sha256Count)
    }

    fn decode(r: &mut Cursor) -> (res: Result<Vec<Sha256>, Error>) {
        let ghost expected = <Vec<Sha256> as Decodable>::spec_decode(r.data(), r.pos());
        decode_counted::<Sha256>(r, Error::Sha256Count)
    }
}

impl Encodable for Vec<Sha256> {
    /// The number of hashes, then the hashes.
    open spec fn spec_encode(hs: Seq<Seq<u8>>) -> Seq<u8> {
        spec_encode_counted::<Sha256>(hs)
    }

    fn encode(&self, w: &mut Vec<u8>) -> (r: Result<(), Error>) {
        encode_counted(self, w)
    }
}

} // verus!
