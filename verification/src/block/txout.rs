use vstd::prelude::*;

use crate::block::script::Script;
use crate::encode::cursor::Cursor;
use crate::encode::encode::{Decodable};
use crate::encode::error::Error;
use crate::encode::list::{decode_counted, spec_decode_counted};

verus! {

/// A transaction output: an amount and the script that locks it.
#[derive(Debug)]
pub struct TxOut {
    pub amount: u64,
    pub script_pubkey: Script,
}

/// The model of a [`TxOut`].
pub struct SpecTxOut {
    pub amount: u64,
    pub script_pubkey: Seq<u8>,
}

impl DeepView for TxOut {
    type V = SpecTxOut;

    open spec fn deep_view(&self) -> SpecTxOut {
        SpecTxOut { amount: self.amount, script_pubkey: self.script_pubkey.deep_view() }
    }
}

/// The outputs of a transaction.
#[derive(Debug)]
pub struct TxOuts(Vec<TxOut>);

impl DeepView for TxOuts {
    type V = Seq<SpecTxOut>;

    closed spec fn deep_view(&self) -> Seq<SpecTxOut> {
        self.0.deep_view()
    }
}

impl TxOuts {
    /// The number of outputs.
    pub fn len(&self) -> (n: usize)
        ensures
            n == self.deep_view().len(),
    {
        self.0.len()
    }

    /// The output at `index`, if there is one.
    pub fn get(&self, index: usize) -> (r: Option<&TxOut>)
        ensures
            r is Some <==> index < self.deep_view().len(),
            r matches Some(o) ==> o.deep_view() == self.deep_view()[index as int],
    {
        if index < self.0.len() {
            Some(&self.0[index])
        } else {
            None
        }
    }
}

impl Decodable for TxOuts {
    /// The number of outputs (`OutputsCount` when missing), then the outputs.
    open spec fn spec_decode(data: Seq<u8>, pos: int) -> (Result<Seq<SpecTxOut>, Error>, int) {
        spec_decode_counted::<TxOut>(data, pos, Error::OutputsCount)
    }

    fn decode(r: &mut Cursor) -> (res: Result<TxOuts, Error>) {
        let ghost expected = <TxOuts as Decodable>::spec_decode(r.data(), r.pos());
        match decode_counted::<TxOut>(r, Error::OutputsCount) {
            Ok(txouts) => Ok(TxOuts(txouts)),
            Err(e) => Err(e),
        }
    }
}

impl Decodable for TxOut {
    /// The amount as a little-endian `u64` (`TxOutAmount` when missing), then
    /// the script (`ScriptPubKey` when it cannot be read).
    open spec fn spec_decode(data: Seq<u8>, pos: int) -> (Result<SpecTxOut, Error>, int) {
        let (amount, p1) = u64::spec_decode(data, pos);
        match amount {
            Err(_) => (Err(Error::TxOutAmount), p1),
            Ok(a) => {
                let (script, p2) = Script::spec_decode(data, p1);
                match script {
                    Err(_) => (Err(Error::ScriptPubKey), p2),
                    Ok(s) => (Ok(SpecTxOut { amount: a, script_pubkey: s }), p2),
                }
            },
        }
    }

    fn decode(r: &mut Cursor) -> (res: Result<TxOut, Error>) {
        let ghost expected = <TxOut as Decodable>::spec_decode(r.data(), r.pos());
        let amount = match u64::decode(r) {
            Ok(a) => a,
            Err(_) => return Err(Error::TxOutAmount),
        };
        let script_pubkey = match Script::decode(r) {
            Ok(s) => s,
            Err(_) => return Err(Error::ScriptPubKey),
        };
        Ok(TxOut { amount: amount, script_pubkey: script_pubkey })
    }
}

} // verus!
