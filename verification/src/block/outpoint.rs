use vstd::prelude::*;
use vstd::bytes::{lemma_auto_spec_u32_to_from_le_bytes, spec_u32_from_le_bytes, spec_u32_to_le_bytes};

use crate::encode::cursor::Cursor;
use crate::encode::encode::{holds_at, Decodable};
use crate::encode::error::Error;

verus! {

/// A reference to an output of an earlier transaction: the transaction's
/// hash and the index of the output in it.
#[derive(Debug)]
pub struct OutPoint {
    pub transaction_hash: [u8; 32],
    pub index: u32,
}

/// The model of an [`OutPoint`].
pub struct SpecOutPoint {
    pub transaction_hash: Seq<u8>,
    pub index: u32,
}

impl DeepView for OutPoint {
    type V = SpecOutPoint;

    open spec fn deep_view(&self) -> SpecOutPoint {
        SpecOutPoint { transaction_hash: self.transaction_hash.deep_view(), index: self.index }
    }
}

impl Decodable for OutPoint {
    /// 32 bytes of hash (`OutPointTransactionHash` when missing), then the
    /// index as a little-endian `u32` (`OutPointIndex` when missing).
    open spec fn spec_decode(data: Seq<u8>, pos: int) -> (Result<SpecOutPoint, Error>, int) {
        let (hash, p1) = <[u8; 32] as Decodable>::spec_decode(data, pos);
        match hash {
            Err(_) => (Err(Error::OutPointTransactionHash), p1),
            Ok(h) => {
                let (index, p2) = u32::spec_decode(data, p1);
                match index {
                    Err(_) => (Err(Error::OutPointIndex), p2),
                    Ok(i) => (Ok(SpecOutPoint { transaction_hash: h, index: i }), p2),
                }
            },
        }
    }

    fn decode(r: &mut Cursor) -> (res: Result<OutPoint, Error>) {
        let ghost expected = <OutPoint as Decodable>::spec_decode(r.data(), r.pos());
        let transaction_hash = match <[u8; 32]>::decode(r) {
            Ok(h) => h,
            Err(_) => return Err(Error::OutPointTransactionHash),
        };
        let index = match u32::decode(r) {
            Ok(i) => i,
            Err(_) => return Err(Error::OutPointIndex),
        };
        Ok(OutPoint { transaction_hash: transaction_hash, index: index })
    }
}

/// An outpoint takes 36 bytes: the transaction hash as the first 32 bytes
/// read, and the output's index as the little-endian `u32` of the next four.
pub proof fn lemma_outpoint_layout(data: Seq<u8>, pos: int)
    requires
        OutPoint::spec_decode(data, pos).0 is Ok,
    ensures
        0 <= pos,
        OutPoint::spec_decode(data, pos).1 == pos + 36 <= data.len(),
        OutPoint::spec_decode(data, pos).0->Ok_0.transaction_hash == data.subrange(pos, pos + 32),
        OutPoint::spec_decode(data, pos).0->Ok_0.index == spec_u32_from_le_bytes(
            data.subrange(pos + 32, pos + 36),
        ),
{
}

/// Any 32-byte hash followed by the little-endian bytes of any index
/// decodes as that hash and that index, 36 bytes further on.
pub proof fn lemma_outpoint_reads(data: Seq<u8>, pos: int, hash: Seq<u8>, index: u32)
    requires
        hash.len() == 32,
        holds_at(data, pos, hash + spec_u32_to_le_bytes(index)),
    ensures
        OutPoint::spec_decode(data, pos) == (
            Ok::<SpecOutPoint, Error>(SpecOutPoint { transaction_hash: hash, index: index }),
            pos + 36,
        ),
{
    lemma_auto_spec_u32_to_from_le_bytes();
    let bytes = hash + spec_u32_to_le_bytes(index);
    assert(data.subrange(pos, pos + 32) =~= bytes.subrange(0, 32));
    assert(bytes.subrange(0, 32) =~= hash);
    assert(data.subrange(pos + 32, pos + 36) =~= bytes.subrange(32, 36));
    assert(bytes.subrange(32, 36) =~= spec_u32_to_le_bytes(index));
}

} // verus!
