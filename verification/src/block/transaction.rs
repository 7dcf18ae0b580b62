use vstd::prelude::*;
use vstd::bytes::{lemma_auto_spec_u32_to_from_le_bytes, spec_u32_from_le_bytes, spec_u32_to_le_bytes};

use crate::block::txin::{SpecTxIn, TxIns};
use crate::block::txout::{SpecTxOut, TxOuts};
use crate::block::witness::{Witness, Witnesses};
use crate::encode::cursor::Cursor;
use crate::encode::encode::{Decodable};
use crate::encode::error::Error;
use crate::encode::list::{decode_counted, decode_items, spec_decode_counted, spec_decode_items};

verus! {

/// The marker that announces witness data, read as a little-endian `u16`
/// (the bytes 00 01).
pub const WITNESS_FLAG: u16 = 0x0100;

/// A transaction: its version, the optional witness flag, inputs, outputs,
/// the witnesses (present exactly when the flag is: one list of witnesses
/// for each input, in the order of the inputs) and the lock time.
#[derive(Debug)]
pub struct Transaction {
    pub version: i32,
    pub flag: Option<u16>,
    pub inputs: TxIns,
    pub outputs: TxOuts,
    pub witness: Option<Vec<Witnesses>>,
    pub locktime: u32,
}

/// The model of a [`Transaction`].
pub struct SpecTransaction {
    pub version: i32,
    pub flag: Option<u16>,
    pub inputs: Seq<SpecTxIn>,
    pub outputs: Seq<SpecTxOut>,
    pub witness: Option<Seq<Seq<Seq<u8>>>>,
    pub locktime: u32,
}

impl DeepView for Transaction {
    type V = SpecTransaction;

    open spec fn deep_view(&self) -> SpecTransaction {
        SpecTransaction {
            version: self.version,
            flag: self.flag,
            inputs: self.inputs.deep_view(),
            outputs: self.outputs.deep_view(),
            witness: self.witness.deep_view(),
            locktime: self.locktime,
        }
    }
}

/// The witnesses of a transaction, read only when the flag is present: one
/// counted list of witnesses for each of the `inputs` inputs.
pub open spec fn spec_decode_witness(data: Seq<u8>, pos: int, flagged: bool, inputs: nat) -> (
    Result<Option<Seq<Seq<Seq<u8>>>>, Error>,
    int,
) {
    if flagged {
        let (w, p) = spec_decode_items::<Vec<Witness>>(data, pos, inputs);
        match w {
            Err(e) => (Err(e), p),
            Ok(ws) => (Ok(Some(ws)), p),
        }
    } else {
        (Ok(None), pos)
    }
}

/// Decoding a transaction after its inputs: outputs, witnesses when flagged,
/// then the lock time.
pub open spec fn spec_decode_transaction_tail(
    data: Seq<u8>,
    pos: int,
    version: i32,
    flag: Option<u16>,
    inputs: Seq<SpecTxIn>,
) -> (Result<SpecTransaction, Error>, int) {
    let (outputs, p1) = TxOuts::spec_decode(data, pos);
    match outputs {
        Err(e) => (Err(e), p1),
        Ok(outs) => {
            let (witness, p2) = spec_decode_witness(data, p1, flag is Some, inputs.len());
            match witness {
                Err(e) => (Err(e), p2),
                Ok(w) => {
                    let (locktime, p3) = u32::spec_decode(data, p2);
                    match locktime {
                        Err(_) => (Err(Error::TransactionLockTime), p3),
                        Ok(l) => (
                            Ok(
                                SpecTransaction {
                                    version: version,
                                    flag: flag,
                                    inputs: inputs,
                                    outputs: outs,
                                    witness: w,
                                    locktime: l,
                                },
                            ),
                            p3,
                        ),
                    }
                },
            }
        },
    }
}

impl Decodable for Transaction {
    /// The version (`TransactionVersion`); two bytes that are the witness
    /// flag when they read 0x0100 and are otherwise left for the inputs
    /// (`TransactionFlag` when the two bytes are not there); the inputs; the
    /// outputs; when flagged, one list of witnesses per input; the lock time
    /// (`TransactionLockTime`).
    open spec fn spec_decode(data: Seq<u8>, pos: int) -> (Result<SpecTransaction, Error>, int) {
        let (version, p1) = i32::spec_decode(data, pos);
        match version {
            Err(_) => (Err(Error::TransactionVersion), p1),
            Ok(v) => {
                let (marker, p2) = u16::spec_decode(data, p1);
                match marker {
                    Err(_) => (Err(Error::TransactionFlag), p2),
                    Ok(m) => {
                        let flag = if m == WITNESS_FLAG {
                            Some(m)
                        } else {
                            None
                        };
                        let p3 = if m == WITNESS_FLAG {
                            p2
                        } else {
                            p1
                        };
                        let (inputs, p4) = TxIns::spec_decode(data, p3);
                        match inputs {
                            Err(e) => (Err(e), p4),
                            Ok(ins) => spec_decode_transaction_tail(data, p4, v, flag, ins),
                        }
                    },
                }
            },
        }
    }

    fn decode(r: &mut Cursor) -> (res: Result<Transaction, Error>) {
        let ghost expected = <Transaction as Decodable>::spec_decode(r.data(), r.pos());
        let version = match i32::decode(r) {
            Ok(v) => v,
            Err(_) => return Err(Error::TransactionVersion),
        };
        let position = r.position();
        let flag = match u16::decode(r) {
            Ok(v) => if v == WITNESS_FLAG {
                Some(v)
            } else {
                None
            },
            Err(_) => return Err(Error::TransactionFlag),
        };
        if flag.is_none() {
            r.set_position(position);
        }
        let inputs = match TxIns::decode(r) {
            Ok(i) => i,
            Err(e) => return Err(e),
        };
        let ghost after_inputs = r.pos();
        let outputs = match TxOuts::decode(r) {
            Ok(o) => o,
            Err(e) => return Err(e),
        };
        let witnesses = match flag {
            Some(_) => match decode_items::<Vec<Witness>>(r, inputs.len() as u64) {
                Ok(w) => Some(w),
                Err(e) => return Err(e),
            },
            None => None,
        };
        let locktime = match u32::decode(r) {
            Ok(l) => l,
            Err(_) => return Err(Error::TransactionLockTime),
        };
        let result = Transaction {
            version: version,
            flag: flag,
            inputs: inputs,
            outputs: outputs,
            witness: witnesses,
            locktime: locktime,
        };
        proof {
            assert(result.witness.deep_view() == match witnesses {
                Some(w) => Some(w.deep_view()),
                None => None::<Seq<Seq<Seq<u8>>>>,
            });
        }
        Ok(result)
    }
}

/// The transactions of a block.
#[derive(Debug)]
pub struct Transactions(Vec<Transaction>);

impl DeepView for Transactions {
    type V = Seq<SpecTransaction>;

    closed spec fn deep_view(&self) -> Seq<SpecTransaction> {
        self.0.deep_view()
    }
}

impl Transactions {
    /// The number of transactions.
    pub fn len(&self) -> (n: usize)
        ensures
            n == self.deep_view().len(),
    {
        self.0.len()
    }

    /// The transaction at `index`, if there is one.
    pub fn get(&self, index: usize) -> (r: Option<&Transaction>)
        ensures
            r is Some <==> index < self.deep_view().len(),
            r matches Some(t) ==> t.deep_view() == self.deep_view()[index as int],
    {
        if index < self.0.len() {
            Some(&self.0[index])
        } else {
            None
        }
    }
}

impl Decodable for Transactions {
    /// The number of transactions (`TransactionsCount` when missing), then
    /// the transactions.
    open spec fn spec_decode(data: Seq<u8>, pos: int) -> (Result<Seq<SpecTransaction>, Error>, int) {
        spec_decode_counted::<Transaction>(data, pos, Error::TransactionsCount)
    }

    fn decode(r: &mut Cursor) -> (res: Result<Transactions, Error>) {
        let ghost expected = <Transactions as Decodable>::spec_decode(r.data(), r.pos());
        match decode_counted::<Transaction>(r, Error::TransactionsCount) {
            Ok(txs) => Ok(Transactions(txs)),
            Err(e) => Err(e),
        }
    }
}

/// The version of a decoded transaction is the little-endian number of its
/// first four bytes, and its lock time the little-endian `u32` of the last
/// four bytes read: those bytes are the lock time's little-endian encoding.
pub proof fn lemma_transaction_locktime(data: Seq<u8>, pos: int)
    requires
        Transaction::spec_decode(data, pos).0 is Ok,
    ensures
        0 <= pos,
        4 <= Transaction::spec_decode(data, pos).1 <= data.len(),
        Transaction::spec_decode(data, pos).0->Ok_0.version == spec_u32_from_le_bytes(
            data.subrange(pos, pos + 4),
        ) as i32,
        Transaction::spec_decode(data, pos).0->Ok_0.locktime == spec_u32_from_le_bytes(
            data.subrange(Transaction::spec_decode(data, pos).1 - 4, Transaction::spec_decode(data, pos).1),
        ),
        spec_u32_to_le_bytes(Transaction::spec_decode(data, pos).0->Ok_0.locktime) == data.subrange(
            Transaction::spec_decode(data, pos).1 - 4,
            Transaction::spec_decode(data, pos).1,
        ),
{
    lemma_auto_spec_u32_to_from_le_bytes();
    let (version, p1) = i32::spec_decode(data, pos);
    let v = version->Ok_0;
    let (marker, p2) = u16::spec_decode(data, p1);
    let m = marker->Ok_0;
    let flag = if m == WITNESS_FLAG { Some(m) } else { None };
    let p3 = if m == WITNESS_FLAG { p2 } else { p1 };
    let (inputs, p4) = TxIns::spec_decode(data, p3);
    let ins = inputs->Ok_0;
    let (outputs, q1) = TxOuts::spec_decode(data, p4);
    let (witness, q2) = spec_decode_witness(data, q1, flag is Some, ins.len());
    let (locktime, q3) = u32::spec_decode(data, q2);
    assert(Transaction::spec_decode(data, pos) == spec_decode_transaction_tail(data, p4, v, flag, ins));
    assert(locktime is Ok);
    assert(q3 == q2 + 4);
    assert(0 <= q2);
}

} // verus!
