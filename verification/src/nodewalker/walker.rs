//! The bookkeeping of a walk: retry counters, the bytes received so far, the
//! messages decoded from them, and the addresses collected.
//!
//! Connecting, reading and writing are the caller's; each step here says what
//! the caller does next and takes back what came of it.
use vstd::prelude::*;

use crate::encode::cursor::Cursor;
use crate::encode::encode::Decodable;
use crate::encode::error::Error;
use crate::network::command::Command;
use crate::network::message::{spec_payload_command, Message, Payload, SpecMessage, SpecPayload};
use crate::network::networkaddr::SpecTimedNetworkAddr;
use crate::nodewalker::address::{addr_text, spec_addr_text};
use crate::nodewalker::fsm::{
    spec_action_after, spec_event_of, spec_state_after, WalkerAction, WalkerEvent, WalkerOutcome,
    WalkerState,
};
use crate::nodewalker::result::{
    ConnectResult, ConnectRetryResult, DecodeResult, InitConnectResult, InitResult,
    ReceiveMessageResult, ReceiveResult, SendGetAddrRetryResult, SendMessageResult, SendResult,
};

verus! {

/// How many connections a walk attempts.
pub const CONNECT_MAX_RETRY: u8 = 1;

/// How many times a walk sends `getaddr`.
pub const GETADDR_MAX_RETRY: u8 = 2;

/// How many rounds of reading and decoding a wait for messages takes at most,
/// less one.
pub const RECEIVE_LOOP_MAX: u32 = 20;

/// How many failed reads a wait for messages tolerates, less one.
pub const RECEIVE_ERROR_MAX: u32 = 5;

/// How a failed decoding of the received bytes is read: an error in the
/// header of a message, or a payload that runs past the bytes, means that
/// more bytes are needed; any other error means the bytes are bad.
pub open spec fn spec_decode_error_result(e: Error) -> DecodeResult {
    match e {
        Error::PayloadCommandString => DecodeResult::NeedMoreData,
        Error::PayloadLen => DecodeResult::NeedMoreData,
        Error::PayloadTooSmall => DecodeResult::NeedMoreData,
        Error::PayloadChecksum => DecodeResult::NeedMoreData,
        Error::PayloadData => DecodeResult::NeedMoreData,
        _ => DecodeResult::DecodeFailed,
    }
}

/// How a failed decoding of the received bytes is read.
pub fn decode_error_result(e: Error) -> (r: DecodeResult)
    ensures
        r == spec_decode_error_result(e),
{
    match e {
        Error::PayloadCommandString => DecodeResult::NeedMoreData,
        Error::PayloadLen => DecodeResult::NeedMoreData,
        Error::PayloadTooSmall => DecodeResult::NeedMoreData,
        Error::PayloadChecksum => DecodeResult::NeedMoreData,
        Error::PayloadData => DecodeResult::NeedMoreData,
        _ => DecodeResult::DecodeFailed,
    }
}

/// A message was sent when it was encoded and written.
pub fn send_message_result(r: SendResult) -> (m: SendMessageResult)
    ensures
        m == if r == SendResult::Succeed {
            SendMessageResult::Succeed
        } else {
            SendMessageResult::Failed
        },
{
    match r {
        SendResult::Succeed => SendMessageResult::Succeed,
        _ => SendMessageResult::Failed,
    }
}

/// What an attempt to connect comes to.
pub fn connect_retry_result(r: ConnectResult) -> (c: ConnectRetryResult)
    ensures
        c == match r {
            ConnectResult::Succeed => ConnectRetryResult::Succeed,
            ConnectResult::ConnectFailed => ConnectRetryResult::ConnectFailed,
        },
{
    match r {
        ConnectResult::Succeed => ConnectRetryResult::Succeed,
        ConnectResult::ConnectFailed => ConnectRetryResult::ConnectFailed,
    }
}

/// What the first attempt to connect comes to, once the address was read.
pub fn init_connect_result(r: ConnectRetryResult) -> (c: InitConnectResult)
    ensures
        c == match r {
            ConnectRetryResult::ConnectFailed => InitConnectResult::ConnectFailed,
            ConnectRetryResult::TooManyRetry => InitConnectResult::TooManyRetry,
            ConnectRetryResult::Succeed => InitConnectResult::Succeed,
        },
{
    match r {
        ConnectRetryResult::ConnectFailed => InitConnectResult::ConnectFailed,
        ConnectRetryResult::TooManyRetry => InitConnectResult::TooManyRetry,
        ConnectRetryResult::Succeed => InitConnectResult::Succeed,
    }
}

/// What an attempt to send `getaddr` comes to.
pub fn send_getaddr_retry_result(r: SendMessageResult) -> (g: SendGetAddrRetryResult)
    ensures
        g == if r == SendMessageResult::Succeed {
            SendGetAddrRetryResult::Succeed
        } else {
            SendGetAddrRetryResult::Failed
        },
{
    match r {
        SendMessageResult::Succeed => SendGetAddrRetryResult::Succeed,
        _ => SendGetAddrRetryResult::Failed,
    }
}

/// `addr` with the default port, 8333, appended, for an address given
/// without a port.
pub fn with_default_port(addr: &str) -> (s: String)
    ensures
        s@ == addr@ + ":8333"@,
{
    let mut s = addr.to_owned();
    s.append(":8333");
    s
}

/// One wait for messages: rounds of reading and decoding, a bounded number
/// of them, and a bounded number of failed reads.
#[derive(Debug, Clone, Copy)]
pub struct ReceiveLoop {
    loop_count: u32,
    error_count: u32,
}

impl ReceiveLoop {
    #[verifier::type_invariant]
    closed spec fn inv(self) -> bool {
        &&& self.loop_count <= RECEIVE_LOOP_MAX + 1
        &&& self.error_count <= RECEIVE_ERROR_MAX + 1
    }

    /// The rounds begun so far.
    pub closed spec fn rounds(self) -> u32 {
        self.loop_count
    }

    /// The failed reads so far.
    pub closed spec fn errors(self) -> u32 {
        self.error_count
    }

    /// A wait that has not begun.
    pub fn new() -> (l: ReceiveLoop)
        ensures
            l.rounds() == 0,
            l.errors() == 0,
    {
        ReceiveLoop { loop_count: 0, error_count: 0 }
    }

    /// Begins a round when fewer than 21 rounds were begun and fewer than
    /// seven reads failed; `false` ends the wait.
    pub fn next_round(&mut self) -> (go: bool)
        ensures
            go == (old(self).rounds() <= RECEIVE_LOOP_MAX && old(self).errors() <= RECEIVE_ERROR_MAX),
            final(self).rounds() == if go {
                old(self).rounds() + 1
            } else {
                old(self).rounds() as int
            },
            final(self).errors() == old(self).errors(),
    {
        proof {
            use_type_invariant(&*self);
        }
        if self.loop_count <= RECEIVE_LOOP_MAX && self.error_count <= RECEIVE_ERROR_MAX {
            self.loop_count = self.loop_count + 1;
            true
        } else {
            false
        }
    }

    /// Takes the outcome of the round's read: `true` when there is something
    /// to decode; a failed or empty read counts as an error.
    pub fn on_receive(&mut self, r: ReceiveResult) -> (decode: bool)
        requires
            old(self).errors() <= RECEIVE_ERROR_MAX,
        ensures
            decode == (r == ReceiveResult::ReadSome),
            final(self).rounds() == old(self).rounds(),
            final(self).errors() == if decode {
                old(self).errors() as int
            } else {
                old(self).errors() + 1
            },
    {
        proof {
            use_type_invariant(&*self);
        }
        match r {
            ReceiveResult::ReadSome => true,
            _ => {
                self.error_count = self.error_count + 1;
                false
            },
        }
    }

    /// Takes the outcome of the round's decoding: `true` when the wait goes
    /// on, which it does only while more bytes are needed.
    pub fn on_decode(r: DecodeResult) -> (go_on: bool)
        ensures
            go_on == (r == DecodeResult::NeedMoreData),
    {
        match r {
            DecodeResult::NeedMoreData => true,
            _ => false,
        }
    }
}

/// The texts of `addrs`, `ip:port` each.
pub open spec fn spec_addrs_texts(addrs: Seq<SpecTimedNetworkAddr>) -> Seq<Seq<char>> {
    addrs.map_values(|a: SpecTimedNetworkAddr| spec_addr_text(a.addr.ip, a.addr.port))
}

/// The texts of the addresses that the `addr` messages among `messages`
/// carry, in order.
pub open spec fn spec_collected(messages: Seq<SpecMessage>) -> Seq<Seq<char>>
    decreases messages.len(),
{
    if messages.len() == 0 {
        Seq::empty()
    } else {
        spec_collected(messages.drop_last()) + match messages.last().payload {
            SpecPayload::Addr(addrs) => spec_addrs_texts(addrs),
            _ => Seq::empty(),
        }
    }
}

/// A walk of one node.
pub struct NodeWalker {
    node_ip_port: String,
    connect_retry: u8,
    getaddr_retry: u8,
    ips: Vec<String>,
    response: Vec<u8>,
    messages: Vec<Message>,
}

/// `messages` holds one whose payload answers to `command`.
pub open spec fn spec_has_message(messages: Seq<SpecMessage>, command: Command) -> bool {
    exists|i: int| 0 <= i < messages.len() && spec_payload_command(#[trigger] messages[i].payload) == command
}

impl NodeWalker {
    /// The node's address, as given.
    pub closed spec fn spec_node(&self) -> Seq<char> {
        self.node_ip_port@
    }

    /// The connections attempted so far.
    pub closed spec fn spec_connect_retry(&self) -> u8 {
        self.connect_retry
    }

    /// The `getaddr` messages attempted so far.
    pub closed spec fn spec_getaddr_retry(&self) -> u8 {
        self.getaddr_retry
    }

    /// The addresses collected.
    pub closed spec fn spec_ips(&self) -> Seq<Seq<char>> {
        self.ips@.map_values(|s: String| s@)
    }

    /// The bytes received and not yet decoded.
    pub closed spec fn spec_response(&self) -> Seq<u8> {
        self.response@
    }

    /// The messages decoded so far.
    pub closed spec fn spec_messages(&self) -> Seq<SpecMessage> {
        self.messages.deep_view()
    }

    /// A walk of the node at `nodeip` (`host:port`, or a host alone) that has
    /// not begun.
    pub fn new(nodeip: &String) -> (w: NodeWalker)
        ensures
            w.spec_node() == nodeip@,
            w.spec_connect_retry() == 0,
            w.spec_getaddr_retry() == 0,
            w.spec_ips().len() == 0,
            w.spec_response().len() == 0,
            w.spec_messages().len() == 0,
    {
        let w = NodeWalker {
            node_ip_port: nodeip.clone(),
            connect_retry: 0,
            getaddr_retry: 0,
            ips: Vec::new(),
            response: Vec::new(),
            messages: Vec::new(),
        };
        assert(w.ips@.map_values(|s: String| s@) =~= Seq::<Seq<char>>::empty());
        assert(w.messages.deep_view() =~= Seq::<SpecMessage>::empty());
        w
    }

    /// The node's address, as given.
    pub fn node_ip_port(&self) -> (s: &String)
        ensures
            s@ == self.spec_node(),
    {
        &self.node_ip_port
    }

    /// The addresses collected.
    pub fn ips(&self) -> (v: Vec<String>)
        ensures
            v@.map_values(|s: String| s@) == self.spec_ips(),
    {
        let mut v: Vec<String> = Vec::new();
        let mut i: usize = 0;
        while i < self.ips.len()
            invariant
                i <= self.ips@.len(),
                v@.len() == i,
                forall|k: int| 0 <= k < i ==> #[trigger] v@[k]@ == self.ips@[k]@,
            decreases self.ips.len() - i,
        {
            let ip = self.ips[i].clone();
            v.push(ip);
            i = i + 1;
        }
        assert(v@.map_values(|s: String| s@) =~= self.ips@.map_values(|s: String| s@));
        v
    }

    /// The connections attempted so far.
    pub fn connect_attempts(&self) -> (n: u8)
        ensures
            n == self.spec_connect_retry(),
    {
        self.connect_retry
    }

    /// The `getaddr` messages attempted so far.
    pub fn getaddr_attempts(&self) -> (n: u8)
        ensures
            n == self.spec_getaddr_retry(),
    {
        self.getaddr_retry
    }

    /// The messages decoded so far.
    pub fn messages(&self) -> (m: &Vec<Message>)
        ensures
            m.deep_view() == self.spec_messages(),
    {
        &self.messages
    }

    /// The first step of a walk, once the caller tried to read the node's
    /// address: `Some` result when the walk stops here (the address could
    /// not be read, or no attempt is left), `None` when the caller connects
    /// now and hands the outcome to [`init_connect_result`].
    pub fn init_connect_retry(&mut self, init: InitResult) -> (r: Option<InitConnectResult>)
        requires
            old(self).spec_connect_retry() < 255,
        ensures
            init == InitResult::ParseAddrFailed ==> r == Some(InitConnectResult::ParseAddrFailed)
                && *final(self) == *old(self),
            init == InitResult::Succeed ==> {
                &&& final(self).spec_connect_retry() == old(self).spec_connect_retry() + 1
                &&& r == if old(self).spec_connect_retry() >= CONNECT_MAX_RETRY {
                    Some(InitConnectResult::TooManyRetry)
                } else {
                    None::<InitConnectResult>
                }
            },
            final(self).spec_getaddr_retry() == old(self).spec_getaddr_retry(),
            final(self).spec_messages() == old(self).spec_messages(),
            final(self).spec_response() == old(self).spec_response(),
            final(self).spec_ips() == old(self).spec_ips(),
            final(self).spec_node() == old(self).spec_node(),
    {
        match init {
            InitResult::ParseAddrFailed => Some(InitConnectResult::ParseAddrFailed),
            InitResult::Succeed => match self.connect_retry() {
                Some(r) => Some(init_connect_result(r)),
                None => None,
            },
        }
    }

    /// Counts an attempt to connect: `Some(TooManyRetry)` when none is left,
    /// `None` when the caller connects now and hands the outcome to
    /// [`connect_retry_result`].
    pub fn connect_retry(&mut self) -> (r: Option<ConnectRetryResult>)
        requires
            old(self).spec_connect_retry() < 255,
        ensures
            final(self).spec_connect_retry() == old(self).spec_connect_retry() + 1,
            r == if old(self).spec_connect_retry() >= CONNECT_MAX_RETRY {
                Some(ConnectRetryResult::TooManyRetry)
            } else {
                None::<ConnectRetryResult>
            },
            final(self).spec_getaddr_retry() == old(self).spec_getaddr_retry(),
            final(self).spec_messages() == old(self).spec_messages(),
            final(self).spec_response() == old(self).spec_response(),
            final(self).spec_ips() == old(self).spec_ips(),
            final(self).spec_node() == old(self).spec_node(),
    {
        let retry = self.connect_retry;
        self.connect_retry = self.connect_retry + 1;
        if retry >= CONNECT_MAX_RETRY {
            return Some(ConnectRetryResult::TooManyRetry);
        }
        None
    }

    /// Counts an attempt to send `getaddr`: `Some(TooManyRetry)` when none is
    /// left, `None` when the caller sends it now and hands the outcome to
    /// [`send_getaddr_retry_result`].
    pub fn send_getaddr_retry(&mut self) -> (r: Option<SendGetAddrRetryResult>)
        requires
            old(self).spec_getaddr_retry() < 255,
        ensures
            final(self).spec_getaddr_retry() == old(self).spec_getaddr_retry() + 1,
            r == if old(self).spec_getaddr_retry() >= GETADDR_MAX_RETRY {
                Some(SendGetAddrRetryResult::TooManyRetry)
            } else {
                None::<SendGetAddrRetryResult>
            },
            final(self).spec_connect_retry() == old(self).spec_connect_retry(),
            final(self).spec_messages() == old(self).spec_messages(),
            final(self).spec_response() == old(self).spec_response(),
            final(self).spec_ips() == old(self).spec_ips(),
            final(self).spec_node() == old(self).spec_node(),
    {
        let retry = self.getaddr_retry;
        self.getaddr_retry = self.getaddr_retry + 1;
        if retry >= GETADDR_MAX_RETRY {
            return Some(SendGetAddrRetryResult::TooManyRetry);
        }
        None
    }

    /// Takes the outcome of one read into `buffer`: `read` bytes arrived.
    /// `Some(ReadEmpty)` when none did; `None` when the buffer was filled and
    /// the caller reads again; `Some(ReadSome)` otherwise.
    pub fn on_read(&mut self, buffer: &[u8], read: usize) -> (r: Option<ReceiveResult>)
        requires
            read <= buffer@.len(),
        ensures
            final(self).spec_response() == old(self).spec_response() + buffer@.take(read as int),
            r == if read == 0 {
                Some(ReceiveResult::ReadEmpty)
            } else if read == buffer@.len() {
                None::<ReceiveResult>
            } else {
                Some(ReceiveResult::ReadSome)
            },
            final(self).spec_connect_retry() == old(self).spec_connect_retry(),
            final(self).spec_getaddr_retry() == old(self).spec_getaddr_retry(),
            final(self).spec_messages() == old(self).spec_messages(),
            final(self).spec_ips() == old(self).spec_ips(),
            final(self).spec_node() == old(self).spec_node(),
    {
        if read == 0 {
            assert(buffer@.take(0) =~= Seq::<u8>::empty());
            assert(self.response@ + Seq::<u8>::empty() =~= self.response@);
            return Some(ReceiveResult::ReadEmpty);
        }
        let ghost start = self.response@;
        let mut i: usize = 0;
        while i < read
            invariant
                i <= read,
                read <= buffer@.len(),
                self.response@ == start + buffer@.take(i as int),
                self.connect_retry == old(self).connect_retry,
                self.getaddr_retry == old(self).getaddr_retry,
                self.messages == old(self).messages,
                self.ips == old(self).ips,
                self.node_ip_port == old(self).node_ip_port,
            decreases read - i,
        {
            self.response.push(buffer[i]);
            assert(buffer@.take(i + 1) =~= buffer@.take(i as int).push(buffer@[i as int]));
            i = i + 1;
        }
        if read == buffer.len() {
            return None;
        }
        Some(ReceiveResult::ReadSome)
    }

    /// Decodes the bytes received so far: on success the messages join those
    /// already decoded and the bytes are dropped; on failure nothing changes,
    /// and the error says whether more bytes are needed.
    pub fn decode(&mut self) -> (r: DecodeResult)
        ensures
            match <Vec<Message> as Decodable>::spec_decode(old(self).spec_response(), 0).0 {
                Ok(ms) => {
                    &&& r == DecodeResult::Succeed
                    &&& final(self).spec_messages() == old(self).spec_messages() + ms
                    &&& final(self).spec_response().len() == 0
                },
                Err(e) => {
                    &&& r == spec_decode_error_result(e)
                    &&& final(self).spec_messages() == old(self).spec_messages()
                    &&& final(self).spec_response() == old(self).spec_response()
                },
            },
            final(self).spec_connect_retry() == old(self).spec_connect_retry(),
            final(self).spec_getaddr_retry() == old(self).spec_getaddr_retry(),
            final(self).spec_ips() == old(self).spec_ips(),
            final(self).spec_node() == old(self).spec_node(),
    {
        let decoded = {
            let mut cursor = Cursor::new(&self.response);
            <Vec<Message> as Decodable>::decode(&mut cursor)
        };
        match decoded {
            Ok(mut messages) => {
                let ghost before = self.messages.deep_view();
                let ghost added = messages.deep_view();
                self.messages.append(&mut messages);
                assert(self.messages.deep_view() =~= before + added);
                self.response.clear();
                DecodeResult::Succeed
            },
            Err(e) => decode_error_result(e),
        }
    }

    /// Whether a message whose payload answers to `command` was decoded.
    pub fn has_message(&self, command: Command) -> (found: bool)
        ensures
            found == spec_has_message(self.spec_messages(), command),
    {
        let mut i: usize = 0;
        while i < self.messages.len()
            invariant
                i <= self.messages@.len(),
                forall|j: int|
                    0 <= j < i ==> spec_payload_command(
                        #[trigger] self.messages.deep_view()[j].payload,
                    ) != command,
            decreases self.messages.len() - i,
        {
            if self.messages[i].payload.to_command() == command {
                assert(spec_payload_command(self.messages.deep_view()[i as int].payload) == command);
                return true;
            }
            i = i + 1;
        }
        false
    }

    /// The outcome of waiting for a message answering to `command`, once the
    /// caller has read and decoded what it could.
    pub fn receive_message_result(&self, command: Command) -> (r: ReceiveMessageResult)
        ensures
            r == if spec_has_message(self.spec_messages(), command) {
                ReceiveMessageResult::Succeed
            } else {
                ReceiveMessageResult::Failed
            },
    {
        if self.has_message(command) {
            ReceiveMessageResult::Succeed
        } else {
            ReceiveMessageResult::Failed
        }
    }

    /// Collects the addresses of the `addr` messages decoded so far, as
    /// `ip:port` texts, after those collected before.
    pub fn parse_addr(&mut self)
        ensures
            final(self).spec_ips() == old(self).spec_ips() + spec_collected(old(self).spec_messages()),
            final(self).spec_messages() == old(self).spec_messages(),
            final(self).spec_response() == old(self).spec_response(),
            final(self).spec_connect_retry() == old(self).spec_connect_retry(),
            final(self).spec_getaddr_retry() == old(self).spec_getaddr_retry(),
            final(self).spec_node() == old(self).spec_node(),
    {
        let ghost messages = self.messages.deep_view();
        let mut found: Vec<String> = Vec::new();
        let mut i: usize = 0;
        assert(messages.take(0) =~= Seq::<SpecMessage>::empty());
        assert(found@.map_values(|s: String| s@) =~= Seq::<Seq<char>>::empty());
        while i < self.messages.len()
            invariant
                i <= self.messages@.len(),
                messages == self.messages.deep_view(),
                found@.map_values(|s: String| s@) == spec_collected(messages.take(i as int)),
            decreases self.messages.len() - i,
        {
            let ghost before = found@.map_values(|s: String| s@);
            assert(messages.take(i + 1).drop_last() =~= messages.take(i as int));
            match &self.messages[i].payload {
                Payload::Addr(addr) => {
                    let ghost addrs = addr.addrs.deep_view();
                    let mut j: usize = 0;
                    assert(before + spec_addrs_texts(addrs.take(0)) =~= before);
                    while j < addr.addrs.len()
                        invariant
                            j <= addr.addrs@.len(),
                            addrs == addr.addrs.deep_view(),
                            found@.map_values(|s: String| s@) == before + spec_addrs_texts(
                                addrs.take(j as int),
                            ),
                        decreases addr.addrs.len() - j,
                    {
                        let ghost prior = found@;
                        let text = addr_text(&addr.addrs[j].addr);
                        assert(addr.addrs[j as int].addr.ip@ =~= addr.addrs[j as int].addr.ip.deep_view());
                        assert(addrs[j as int] == addr.addrs[j as int].deep_view());
                        found.push(text);
                        assert(found@ =~= prior.push(text));
                        assert(found@.map_values(|s: String| s@) =~= prior.map_values(|s: String| s@).push(text@));
                        assert(addrs.take(j + 1) =~= addrs.take(j as int).push(addrs[j as int]));
                        assert(spec_addrs_texts(addrs.take(j + 1)) =~= spec_addrs_texts(addrs.take(j as int)).push(
                            spec_addr_text(addrs[j as int].addr.ip, addrs[j as int].addr.port),
                        ));
                        assert(found@.map_values(|s: String| s@) =~= before + spec_addrs_texts(
                            addrs.take(j + 1),
                        ));
                        j = j + 1;
                    }
                    assert(addrs.take(addrs.len() as int) =~= addrs);
                },
                _ => {
                    assert(before + Seq::<Seq<char>>::empty() =~= before);
                },
            }
            i = i + 1;
        }
        assert(messages.take(messages.len() as int) =~= messages);
        let ghost old_ips = self.ips@;
        let ghost texts = found@;
        self.ips.append(&mut found);
        assert(self.ips@.map_values(|s: String| s@) =~= old_ips.map_values(|s: String| s@)
            + texts.map_values(|s: String| s@));
    }
}

/// A walk as its steps see it: the last event (`None` at the start), and
/// the attempts to connect and to send `getaddr` counted so far.
pub struct SpecWalk {
    pub last: Option<WalkerEvent>,
    pub connect_attempts: nat,
    pub getaddr_attempts: nat,
}

/// `event` comes of an attempt to connect: each counts one
/// ([`NodeWalker::connect_retry`]).
pub open spec fn spec_counts_connect(event: WalkerEvent) -> bool {
    event == WalkerEvent::ConnectSocket || event == WalkerEvent::ConnectFailed
        || event == WalkerEvent::RetryFailed
}

/// `event` comes of an attempt to send `getaddr`: each counts one
/// ([`NodeWalker::send_getaddr_retry`]).
pub open spec fn spec_counts_getaddr(event: WalkerEvent) -> bool {
    event == WalkerEvent::SendGetAddr || event == WalkerEvent::SendGetAddrFailed
        || event == WalkerEvent::SendGetAddrRetryFailed
}

/// The step that `outcome` of the work after `w.last` makes: the handler
/// turns it into the next event, and an attempt is counted as the walker
/// counts it. A connection is tried, and `getaddr` sent, only while attempts
/// are left; once none is, the attempt gives `RetryFailed` or
/// `SendGetAddrRetryFailed` instead. `None` when the outcome is not one the
/// work has, or does not fit the attempts made.
pub open spec fn spec_walk_step(w: SpecWalk, outcome: WalkerOutcome) -> Option<SpecWalk> {
    match spec_event_of(spec_action_after(w.last), outcome) {
        None => None,
        Some(event) => {
            let connect_left = w.connect_attempts < CONNECT_MAX_RETRY;
            let getaddr_left = w.getaddr_attempts < GETADDR_MAX_RETRY;
            let allowed = if event == WalkerEvent::RetryFailed {
                !connect_left
            } else if event == WalkerEvent::ConnectSocket || event == WalkerEvent::ConnectFailed {
                connect_left
            } else if event == WalkerEvent::SendGetAddrRetryFailed {
                !getaddr_left
            } else if event == WalkerEvent::SendGetAddr || event == WalkerEvent::SendGetAddrFailed {
                getaddr_left
            } else {
                true
            };
            if allowed {
                Some(
                    SpecWalk {
                        last: Some(event),
                        connect_attempts: if spec_counts_connect(event) {
                            w.connect_attempts + 1
                        } else {
                            w.connect_attempts
                        },
                        getaddr_attempts: if spec_counts_getaddr(event) {
                            w.getaddr_attempts + 1
                        } else {
                            w.getaddr_attempts
                        },
                    },
                )
            } else {
                None
            }
        },
    }
}

/// How far a state stands from `End`; `getaddr` answered by something else
/// leads from `GetAddr` back to `Handshake`.
pub open spec fn spec_state_rank(state: WalkerState) -> nat {
    match state {
        WalkerState::End => 0,
        WalkerState::Addr => 1,
        WalkerState::Handshake => 2,
        WalkerState::GetAddr => 3,
        WalkerState::VerackSent => 4,
        WalkerState::VerackReceived => 5,
        WalkerState::VersionReceived => 6,
        WalkerState::VersionSent => 7,
        WalkerState::Connect => 8,
        WalkerState::Init => 9,
    }
}

/// The attempts of a kind still left, of `max`, after `made`.
pub open spec fn spec_left(max: u8, made: nat) -> nat {
    if made < max {
        (max - made) as nat
    } else {
        0
    }
}

/// The measure of a walk: the rank of its state, plus ten for each `getaddr`
/// attempt left, plus a hundred for each connection attempt left.
pub open spec fn spec_walk_measure(w: SpecWalk) -> nat {
    spec_state_rank(spec_state_after(w.last)) + 10 * spec_left(GETADDR_MAX_RETRY, w.getaddr_attempts)
        + 100 * spec_left(CONNECT_MAX_RETRY, w.connect_attempts)
}

/// A walk ends: every step it makes lowers its measure, no step leaves
/// `End`, and in every other state some outcome of the work makes a step.
/// From the start (no event, no attempt) the measure is 129, so a walk
/// reaches `End` within 129 steps, whatever the outcomes.
pub proof fn lemma_walk_terminates(w: SpecWalk, outcome: WalkerOutcome)
    ensures
        spec_walk_step(w, outcome) matches Some(next) ==> spec_walk_measure(next) < spec_walk_measure(w),
        spec_state_after(w.last) == WalkerState::End ==> spec_walk_step(w, outcome) is None,
        spec_state_after(w.last) != WalkerState::End ==> exists|o: WalkerOutcome|
            #[trigger] spec_walk_step(w, o) is Some,
        spec_walk_measure(SpecWalk { last: None, connect_attempts: 0, getaddr_attempts: 0 }) == 129,
{
    if spec_state_after(w.last) != WalkerState::End {
        let connect_left = w.connect_attempts < CONNECT_MAX_RETRY;
        let getaddr_left = w.getaddr_attempts < GETADDR_MAX_RETRY;
        let o = match spec_action_after(w.last) {
            WalkerAction::InitConnectRetry => WalkerOutcome::InitConnect(
                if connect_left {
                    InitConnectResult::Succeed
                } else {
                    InitConnectResult::TooManyRetry
                },
            ),
            WalkerAction::ConnectRetry => WalkerOutcome::ConnectRetry(
                if connect_left {
                    ConnectRetryResult::Succeed
                } else {
                    ConnectRetryResult::TooManyRetry
                },
            ),
            WalkerAction::SendVersion => WalkerOutcome::SendMessage(SendMessageResult::Succeed),
            WalkerAction::SendVerack => WalkerOutcome::SendMessage(SendMessageResult::Succeed),
            WalkerAction::ReceiveVersion => WalkerOutcome::ReceiveMessage(
                ReceiveMessageResult::Succeed,
            ),
            WalkerAction::ReceiveVerack => WalkerOutcome::ReceiveMessage(
                ReceiveMessageResult::Succeed,
            ),
            WalkerAction::ReceiveAddr => WalkerOutcome::ReceiveMessage(
                ReceiveMessageResult::Succeed,
            ),
            WalkerAction::SendGetAddrRetry => WalkerOutcome::SendGetAddrRetry(
                if getaddr_left {
                    SendGetAddrRetryResult::Succeed
                } else {
                    SendGetAddrRetryResult::TooManyRetry
                },
            ),
            _ => WalkerOutcome::Done,
        };
        assert(spec_walk_step(w, o) is Some);
    }
}

/// The walk that `outcomes`, one after another, make of `w`; `None` when one
/// of them makes no step.
pub open spec fn spec_walk_run(w: SpecWalk, outcomes: Seq<WalkerOutcome>) -> Option<SpecWalk>
    decreases outcomes.len(),
{
    if outcomes.len() == 0 {
        Some(w)
    } else {
        match spec_walk_step(w, outcomes[0]) {
            None => None,
            Some(next) => spec_walk_run(next, outcomes.drop_first()),
        }
    }
}

/// However the work turns out, a walk makes no more steps than its measure:
/// at most 129 from the start.
pub proof fn lemma_walk_steps_bounded(w: SpecWalk, outcomes: Seq<WalkerOutcome>)
    ensures
        spec_walk_run(w, outcomes) is Some ==> outcomes.len() <= spec_walk_measure(w),
    decreases outcomes.len(),
{
    if outcomes.len() > 0 {
        lemma_walk_terminates(w, outcomes[0]);
        if let Some(next) = spec_walk_step(w, outcomes[0]) {
            lemma_walk_steps_bounded(next, outcomes.drop_first());
        }
    }
}

} // verus!
