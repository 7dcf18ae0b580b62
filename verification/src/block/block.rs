use vstd::prelude::*;

use crate::block::error::DecodeError;
use crate::block::transaction::{SpecTransaction, Transactions};
use crate::encode::cursor::Cursor;
use crate::encode::encode::{result_matches, Decodable};
use crate::encode::error::Error;

verus! {

/// The shortest buffer that can hold a block: an 80-byte header and a
/// one-byte transaction count.
pub const MIN_BLOCK_LEN: usize = 81;

/// A block: its header fields and its transactions.
#[derive(Debug)]
pub struct Block {
    pub version: u32,
    pub previous: [u8; 32],
    pub merkleroot: [u8; 32],
    pub time: u32,
    pub bits: u32,
    pub nonce: u32,
    pub transactions: Transactions,
}

/// The model of a [`Block`].
pub struct SpecBlock {
    pub version: u32,
    pub previous: Seq<u8>,
    pub merkleroot: Seq<u8>,
    pub time: u32,
    pub bits: u32,
    pub nonce: u32,
    pub transactions: Seq<SpecTransaction>,
}

impl DeepView for Block {
    type V = SpecBlock;

    open spec fn deep_view(&self) -> SpecBlock {
        SpecBlock {
            version: self.version,
            previous: self.previous.deep_view(),
            merkleroot: self.merkleroot.deep_view(),
            time: self.time,
            bits: self.bits,
            nonce: self.nonce,
            transactions: self.transactions.deep_view(),
        }
    }
}

/// Decoding a block after its version and previous hash.
pub open spec fn spec_decode_block_tail(
    data: Seq<u8>,
    pos: int,
    version: u32,
    previous: Seq<u8>,
) -> (Result<SpecBlock, Error>, int) {
    let (merkleroot, p1) = <[u8; 32] as Decodable>::spec_decode(data, pos);
    match merkleroot {
        Err(_) => (Err(Error::BlockMerkleRoot), p1),
        Ok(m) => {
            let (time, p2) = u32::spec_decode(data, p1);
            match time {
                Err(_) => (Err(Error::BlockTime), p2),
                Ok(t) => {
                    let (bits, p3) = u32::spec_decode(data, p2);
                    match bits {
                        Err(_) => (Err(Error::BlockBits), p3),
                        Ok(b) => {
                            let (nonce, p4) = u32::spec_decode(data, p3);
                            match nonce {
                                Err(_) => (Err(Error::BlockNonce), p4),
                                Ok(n) => {
                                    let (txs, p5) = Transactions::spec_decode(data, p4);
                                    match txs {
                                        Err(e) => (Err(e), p5),
                                        Ok(ts) => (
                                            Ok(
                                                SpecBlock {
                                                    version: version,
                                                    previous: previous,
                                                    merkleroot: m,
                                                    time: t,
                                                    bits: b,
                                                    nonce: n,
                                                    transactions: ts,
                                                },
                                            ),
                                            p5,
                                        ),
                                    }
                                },
                            }
                        },
                    }
                },
            }
        },
    }
}

/// Parsing a whole buffer as one block: too short a buffer is
/// `InvalidLength`; bytes left after the block are `RemainingContent`.
pub open spec fn spec_parse_block(data: Seq<u8>) -> Result<SpecBlock, Error> {
    if data.len() < MIN_BLOCK_LEN {
        Err(Error::InvalidLength)
    } else {
        let (block, end) = Block::spec_decode(data, 0);
        match block {
            Err(e) => Err(e),
            Ok(b) => if end == data.len() {
                Ok(b)
            } else {
                Err(Error::RemainingContent)
            },
        }
    }
}

impl Block {
    /// Parses `hex` as exactly one block.
    pub fn parse(hex: &Vec<u8>) -> (res: Result<Block, Error>)
        ensures
            result_matches(res, spec_parse_block(hex@)),
    {
        if hex.len() < MIN_BLOCK_LEN {
            return Err(Error::InvalidLength);
        }
        let mut r = Cursor::new(hex);
        let result = match Block::decode(&mut r) {
            Ok(b) => b,
            Err(e) => return Err(e),
        };
        if r.position() as usize != hex.len() {
            return Err(Error::RemainingContent);
        }
        Ok(result)
    }
}

/// Parses `hex` as exactly one block, reporting failures as [`DecodeError`].
pub fn parse(hex: &Vec<u8>) -> (res: Result<Block, DecodeError>)
    ensures
        match spec_parse_block(hex@) {
            Ok(b) => res matches Ok(v) && v.deep_view() == b,
            Err(e) => res == Err::<Block, DecodeError>(DecodeError::spec_from_error(e)),
        },
{
    match Block::parse(hex) {
        Ok(b) => Ok(b),
        Err(e) => Err(DecodeError::from_error(e)),
    }
}

impl Decodable for Block {
    /// The version (`BlockVersion`), previous hash (`BlockPrevious`), merkle
    /// root (`BlockMerkleRoot`), time (`BlockTime`), bits (`BlockBits`) and
    /// nonce (`BlockNonce`), then the transactions.
    open spec fn spec_decode(data: Seq<u8>, pos: int) -> (Result<SpecBlock, Error>, int) {
        let (version, p1) = u32::spec_decode(data, pos);
        match version {
            Err(_) => (Err(Error::BlockVersion), p1),
            Ok(v) => {
                let (previous, p2) = <[u8; 32] as Decodable>::spec_decode(data, p1);
                match previous {
                    Err(_) => (Err(Error::BlockPrevious), p2),
                    Ok(p) => spec_decode_block_tail(data, p2, v, p),
                }
            },
        }
    }

    fn decode(r: &mut Cursor) -> (res: Result<Block, Error>) {
        let ghost expected = <Block as Decodable>::spec_decode(r.data(), r.pos());
        let version = match u32::decode(r) {
            Ok(v) => v,
            Err(_) => return Err(Error::BlockVersion),
        };
        let previous = match <[u8; 32]>::decode(r) {
            Ok(p) => p,
            Err(_) => return Err(Error::BlockPrevious),
        };
        let merkleroot = match <[u8; 32]>::decode(r) {
            Ok(m) => m,
            Err(_) => return Err(Error::BlockMerkleRoot),
        };
        let time = match u32::decode(r) {
            Ok(t) => t,
            Err(_) => return Err(Error::BlockTime),
        };
        let bits = match u32::decode(r) {
            Ok(b) => b,
            Err(_) => return Err(Error::BlockBits),
        };
        let nonce = match u32::decode(r) {
            Ok(n) => n,
            Err(_) => return Err(Error::BlockNonce),
        };
        let transactions = match Transactions::decode(r) {
            Ok(t) => t,
            Err(e) => return Err(e),
        };
        Ok(
            Block {
                version: version,
                previous: previous,
                merkleroot: merkleroot,
                time: time,
                bits: bits,
                nonce: nonce,
                transactions: transactions,
            },
        )
    }
}

} // verus!
