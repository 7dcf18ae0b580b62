use vstd::prelude::*;

use crate::block::outpoint::{OutPoint, SpecOutPoint};
use crate::block::script::Script;
use crate::encode::cursor::Cursor;
use crate::encode::encode::{Decodable};
use crate::encode::error::Error;
use crate::encode::list::{decode_counted, spec_decode_counted};

verus! {

/// A transaction input: the output it spends, the signature script that
/// unlocks it, and its sequence number.
#[derive(Debug)]
pub struct TxIn {
    pub previous: OutPoint,
    pub signature: Script,
    pub sequence: u32,
}

/// The model of a [`TxIn`].
pub struct SpecTxIn {
    pub previous: SpecOutPoint,
    pub signature: Seq<u8>,
    pub sequence: u32,
}

impl DeepView for TxIn {
    type V = SpecTxIn;

    open spec fn deep_view(&self) -> SpecTxIn {
        SpecTxIn {
            previous: self.previous.deep_view(),
            signature: self.signature.deep_view(),
            sequence: self.sequence,
        }
    }
}

/// The inputs of a transaction.
#[derive(Debug)]
pub struct TxIns(Vec<TxIn>);

impl DeepView for TxIns {
    type V = Seq<SpecTxIn>;

    closed spec fn deep_view(&self) -> Seq<SpecTxIn> {
        self.0.deep_view()
    }
}

impl TxIns {
    /// The number of inputs.
    pub fn len(&self) -> (n: usize)
        ensures
            n == self.deep_view().len(),
    {
        self.0.len()
    }

    /// The input at `index`, if there is one.
    pub fn get(&self, index: usize) -> (r: Option<&TxIn>)
        ensures
            r is Some <==> index < self.deep_view().len(),
            r matches Some(i) ==> i.deep_view() == self.deep_view()[index as int],
    {
        if index < self.0.len() {
            Some(&self.0[index])
        } else {
            None
        }
    }
}

impl Decodable for TxIns {
    /// The number of inputs (`InputsCount` when missing), then the inputs.
    open spec fn spec_decode(data: Seq<u8>, pos: int) -> (Result<Seq<SpecTxIn>, Error>, int) {
        spec_decode_counted::<TxIn>(data, pos, Error::InputsCount)
    }

    fn decode(r: &mut Cursor) -> (res: Result<TxIns, Error>) {
        let ghost expected = <TxIns as Decodable>::spec_decode(r.data(), r.pos());
        match decode_counted::<TxIn>(r, Error::InputsCount) {
            Ok(txins) => Ok(TxIns(txins)),
            Err(e) => Err(e),
        }
    }
}

impl Decodable for TxIn {
    /// The spent output (`TxInOutPoint` when it cannot be read), the signature
    /// script (`Signature`), then the sequence number (`TxInSequence`).
    open spec fn spec_decode(data: Seq<u8>, pos: int) -> (Result<SpecTxIn, Error>, int) {
        let (previous, p1) = OutPoint::spec_decode(data, pos);
        match previous {
            Err(_) => (Err(Error::TxInOutPoint), p1),
            Ok(prev) => {
                let (signature, p2) = Script::spec_decode(data, p1);
                match signature {
                    Err(_) => (Err(Error::Signature), p2),
                    Ok(sig) => {
                        let (sequence, p3) = u32::spec_decode(data, p2);
                        match sequence {
                            Err(_) => (Err(Error::TxInSequence), p3),
                            Ok(seq) => (
                                Ok(SpecTxIn { previous: prev, signature: sig, sequence: seq }),
                                p3,
                            ),
                        }
                    },
                }
            },
        }
    }

    fn decode(r: &mut Cursor) -> (res: Result<TxIn, Error>) {
        let ghost expected = <TxIn as Decodable>::spec_decode(r.data(), r.pos());
        let previous = match OutPoint::decode(r) {
            Ok(p) => p,
            Err(_) => return Err(Error::TxInOutPoint),
        };
        let signature = match Script::decode(r) {
            Ok(s) => s,
            Err(_) => return Err(Error::Signature),
        };
        let sequence = match u32::decode(r) {
            Ok(s) => s,
            Err(_) => return Err(Error::TxInSequence),
        };
        Ok(TxIn { previous: previous, signature: signature, sequence: sequence })
    }
}

} // verus!
