pub mod block;
pub mod error;
pub mod outpoint;
pub mod script;
pub mod transaction;
pub mod txin;
pub mod txout;
pub mod witness;
pub mod varint;
