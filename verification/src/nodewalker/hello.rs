//! A small exchange with a peer: say hello, read the answer, and answer
//! back until the peer says `hi!`. The decisions are here; the caller reads
//! and writes.
use vstd::prelude::*;
use vstd::utf8::{decode_utf8, valid_utf8};

use crate::utils::text::string_from_utf8;

verus! {

/// The steps of the exchange.
#[derive(PartialEq, Eq, Structural, Debug, Clone, Copy)]
pub enum HelloState {
    Connecting,
    Connected,
    Receiving,
    Check,
    Respond,
}

/// What one read came to.
#[derive(PartialEq, Eq, Structural, Debug, Clone, Copy)]
pub enum ReadState {
    Read,
    NeedMore,
    Failed,
}

/// A read of `read` bytes into a buffer with room for `capacity`: a full
/// buffer means more is coming, an empty read that the peer is gone.
pub fn read_state(read: usize, capacity: usize) -> (r: ReadState)
    ensures
        r == if read == capacity {
            ReadState::NeedMore
        } else if read == 0 {
            ReadState::Failed
        } else {
            ReadState::Read
        },
{
    let mut result = ReadState::Read;
    if read == 0 {
        result = ReadState::Failed;
    }
    if read == capacity {
        result = ReadState::NeedMore;
    }
    result
}

/// The step after a read: read again, check the answer, or stop (`None`).
pub fn after_read(r: ReadState) -> (next: Option<HelloState>)
    ensures
        next == match r {
            ReadState::NeedMore => Some(HelloState::Receiving),
            ReadState::Read => Some(HelloState::Check),
            ReadState::Failed => None::<HelloState>,
        },
{
    match r {
        ReadState::NeedMore => Some(HelloState::Receiving),
        ReadState::Read => Some(HelloState::Check),
        ReadState::Failed => None,
    }
}

/// The step after checking the answer `buffer`: stop (`None`) when the peer
/// said `hi!` and a newline, else answer back.
pub fn check(buffer: &Vec<u8>) -> (next: Option<HelloState>)
    requires
        valid_utf8(buffer@),
    ensures
        next == if decode_utf8(buffer@) == "hi!\n"@ {
            None::<HelloState>
        } else {
            Some(HelloState::Respond)
        },
{
    let value = match string_from_utf8(buffer.clone()) {
        Some(v) => v,
        None => return Some(HelloState::Respond),
    };
    if value == "hi!\n".to_owned() {
        None
    } else {
        Some(HelloState::Respond)
    }
}

/// The demonstration work of one worker: the numbers it sends, one to ten.
pub struct Walker {}

impl Walker {
    /// The numbers a worker sends, in order: one to ten.
    pub fn execute(&self) -> (v: Vec<u32>)
        ensures
            v@ == Seq::new(10, |i: int| (i + 1) as u32),
    {
        let mut v: Vec<u32> = Vec::new();
        let mut i: u32 = 0;
        while i < 10
            invariant
                i <= 10,
                v@ == Seq::new(i as nat, |k: int| (k + 1) as u32),
            decreases 10 - i,
        {
            i = i + 1;
            v.push(i);
            assert(v@ =~= Seq::new(i as nat, |k: int| (k + 1) as u32));
        }
        v
    }
}

} // verus!
