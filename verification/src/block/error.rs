use vstd::prelude::*;

use crate::encode::error::Error;

verus! {

/// The errors of parsing a block, as the block parser reports them.
#[derive(PartialEq, Eq, Structural, Debug, Clone, Copy)]
pub enum DecodeError {
    InvalidLength,
    RemainingContent,

    BlockVersion,
    BlockPrevious,
    BlockMerkleRoot,
    BlockTime,
    BlockNonce,
    BlockBits,

    TransactionsCount,
    TransactionFlag,
    TransactionVersion,
    TransactionLockTime,

    ScriptContent,
    ScriptLen,

    SignatureScriptContent,
    SignatureScriptLen,

    ScriptPubKeyScriptContent,
    ScriptPubKeyScriptLen,

    OutputsCount,
    TxOutAmount,

    InputsCount,
    TxInTransactionHash,
    TxInSequence,
    TxInIndex,

    WitnessesCount,
    WitnessLen,
    WitnessData,

    VarInt,
    VarIntFD,
    VarIntFE,
    VarIntFF,
}

impl DecodeError {
    /// The block error that stands for `e`. Errors of a length-prefixed
    /// script map to the script's own variants, a failed outpoint to
    /// `TxInTransactionHash`/`TxInIndex`; errors that block decoding never
    /// produces (those of network messages) map to `InvalidLength`.
    pub open spec fn spec_from_error(e: Error) -> DecodeError {
        match e {
            Error::InvalidLength => DecodeError::InvalidLength,
            Error::RemainingContent => DecodeError::RemainingContent,
            Error::BlockVersion => DecodeError::BlockVersion,
            Error::BlockPrevious => DecodeError::BlockPrevious,
            Error::BlockMerkleRoot => DecodeError::BlockMerkleRoot,
            Error::BlockTime => DecodeError::BlockTime,
            Error::BlockNonce => DecodeError::BlockNonce,
            Error::BlockBits => DecodeError::BlockBits,
            Error::TransactionsCount => DecodeError::TransactionsCount,
            Error::TransactionFlag => DecodeError::TransactionFlag,
            Error::TransactionVersion => DecodeError::TransactionVersion,
            Error::TransactionLockTime => DecodeError::TransactionLockTime,
            Error::OutputsCount => DecodeError::OutputsCount,
            Error::TxOutAmount => DecodeError::TxOutAmount,
            Error::InputsCount => DecodeError::InputsCount,
            Error::TxInTransactionHash => DecodeError::TxInTransactionHash,
            Error::TxInSequence => DecodeError::TxInSequence,
            Error::TxInIndex => DecodeError::TxInIndex,
            Error::WitnessesCount => DecodeError::WitnessesCount,
            Error::WitnessLen => DecodeError::WitnessLen,
            Error::WitnessData => DecodeError::WitnessData,
            Error::VarInt => DecodeError::VarInt,
            Error::VarIntFD => DecodeError::VarIntFD,
            Error::VarIntFE => DecodeError::VarIntFE,
            Error::VarIntFF => DecodeError::VarIntFF,
            Error::Script => DecodeError::ScriptContent,
            Error::Signature => DecodeError::SignatureScriptContent,
            Error::ScriptPubKey => DecodeError::ScriptPubKeyScriptContent,
            Error::TxInOutPoint => DecodeError::TxInTransactionHash,
            Error::OutPointTransactionHash => DecodeError::TxInTransactionHash,
            Error::OutPointIndex => DecodeError::TxInIndex,
            Error::VecLen => DecodeError::ScriptLen,
            Error::VecContent => DecodeError::ScriptContent,
            _ => DecodeError::InvalidLength,
        }
    }

    /// Converts a decoding error into a block error.
    pub fn from_error(e: Error) -> (d: DecodeError)
        ensures
            d == Self::spec_from_error(e),
    {
        match e {
            Error::InvalidLength => DecodeError::InvalidLength,
            Error::RemainingContent => DecodeError::RemainingContent,
            Error::BlockVersion => DecodeError::BlockVersion,
            Error::BlockPrevious => DecodeError::BlockPrevious,
            Error::BlockMerkleRoot => DecodeError::BlockMerkleRoot,
            Error::BlockTime => DecodeError::BlockTime,
            Error::BlockNonce => DecodeError::BlockNonce,
            Error::BlockBits => DecodeError::BlockBits,
            Error::TransactionsCount => DecodeError::TransactionsCount,
            Error::TransactionFlag => DecodeError::TransactionFlag,
            Error::TransactionVersion => DecodeError::TransactionVersion,
            Error::TransactionLockTime => DecodeError::TransactionLockTime,
            Error::OutputsCount => DecodeError::OutputsCount,
            Error::TxOutAmount => DecodeError::TxOutAmount,
            Error::InputsCount => DecodeError::InputsCount,
            Error::TxInTransactionHash => DecodeError::TxInTransactionHash,
            Error::TxInSequence => DecodeError::TxInSequence,
            Error::TxInIndex => DecodeError::TxInIndex,
            Error::WitnessesCount => DecodeError::WitnessesCount,
            Error::WitnessLen => DecodeError::WitnessLen,
            Error::WitnessData => DecodeError::WitnessData,
            Error::VarInt => DecodeError::VarInt,
            Error::VarIntFD => DecodeError::VarIntFD,
            Error::VarIntFE => DecodeError::VarIntFE,
            Error::VarIntFF => DecodeError::VarIntFF,
            Error::Script => DecodeError::ScriptContent,
            Error::Signature => DecodeError::SignatureScriptContent,
            Error::ScriptPubKey => DecodeError::ScriptPubKeyScriptContent,
            Error::TxInOutPoint => DecodeError::TxInTransactionHash,
            Error::OutPointTransactionHash => DecodeError::TxInTransactionHash,
            Error::OutPointIndex => DecodeError::TxInIndex,
            Error::VecLen => DecodeError::ScriptLen,
            Error::VecContent => DecodeError::ScriptContent,
            _ => DecodeError::InvalidLength,
        }
    }
}

} // verus!
