//! Framed messages: the network magic, the command name, the payload length,
//! its checksum and the payload itself.
use vstd::prelude::*;

use crate::encode::cursor::Cursor;
use crate::encode::encode::{field, result_matches, Decodable, Encodable};
use crate::encode::error::Error;
use crate::encode::list::{encode_items, prepend, spec_encode_items};
use crate::network::addr::Addr;
use crate::network::alert::Alert;
use crate::network::command::{
    spec_command_field, spec_command_from_name, spec_command_name, Command, CommandString,
};
use crate::network::getaddr::GetAddr;
use crate::network::getheaders::{GetHeaders, SpecGetHeaders};
use crate::network::inv::Inv;
use crate::network::networkaddr::SpecTimedNetworkAddr;
use crate::network::ping::Ping;
use crate::network::pong::Pong;
use crate::network::verack::VerAck;
use crate::network::version::{SpecVersion, Version};
use crate::utils::sha256::{sha256_digest, spec_sha256};

verus! {

/// The network a message belongs to.
///
/// | Network  | Magic value | Sent over wire as |
/// |----------|-------------|-------------------|
/// | main     | 0xD9B4BEF9  | F9 BE B4 D9       |
/// | testnet3 | 0x0709110B  | 0B 11 09 07       |
/// | regtest  | 0xDAB5BFFA  | FA BF B5 DA       |
#[derive(PartialEq, Eq, Structural, Debug, Clone, Copy)]
pub enum Magic {
    MainNet,
    TestNet,
    RegTest,
}

/// The magic value of a network, most significant byte first.
pub open spec fn spec_magic_value(m: Magic) -> Seq<u8> {
    match m {
        Magic::MainNet => seq![0xD9u8, 0xB4u8, 0xBEu8, 0xF9u8],
        Magic::TestNet => seq![0x07u8, 0x09u8, 0x11u8, 0x0Bu8],
        Magic::RegTest => seq![0xDAu8, 0xB5u8, 0xBFu8, 0xFAu8],
    }
}

/// The network whose magic value is `value`, if any.
pub open spec fn spec_magic_from_value(value: Seq<u8>) -> Option<Magic> {
    if value == spec_magic_value(Magic::MainNet) {
        Some(Magic::MainNet)
    } else if value == spec_magic_value(Magic::TestNet) {
        Some(Magic::TestNet)
    } else if value == spec_magic_value(Magic::RegTest) {
        Some(Magic::RegTest)
    } else {
        None
    }
}

impl Magic {
    /// The magic value, most significant byte first.
    pub fn value(&self) -> (v: [u8; 4])
        ensures
            v@ == spec_magic_value(*self),
    {
        let v: [u8; 4] = match self {
            Magic::MainNet => [0xD9, 0xB4, 0xBE, 0xF9],
            Magic::TestNet => [0x07, 0x09, 0x11, 0x0B],
            Magic::RegTest => [0xDA, 0xB5, 0xBF, 0xFA],
        };
        assert(v@ =~= spec_magic_value(*self));
        v
    }
}

impl DeepView for Magic {
    type V = Magic;

    open spec fn deep_view(&self) -> Magic {
        *self
    }
}

impl Encodable for Magic {
    /// The magic value in reverse byte order.
    open spec fn spec_encode(m: Magic) -> Seq<u8> {
        spec_magic_value(m).reverse()
    }

    fn encode(&self, w: &mut Vec<u8>) -> (r: Result<(), Error>) {
        let ghost start = w@;
        let v = self.value();
        w.push(v[3]);
        w.push(v[2]);
        w.push(v[1]);
        w.push(v[0]);
        assert(w@ =~= start + Self::spec_encode(*self));
        Ok(())
    }
}

impl Decodable for Magic {
    /// Four bytes (`MessageMagic` when missing) that, reversed, must be a
    /// known magic value (`Magic` otherwise).
    open spec fn spec_decode(data: Seq<u8>, pos: int) -> (Result<Magic, Error>, int) {
        match field(data, pos, 4) {
            None => (Err(Error::MessageMagic), pos),
            Some(b) => match spec_magic_from_value(b.reverse()) {
                Some(m) => (Ok(m), pos + 4),
                None => (Err(Error::Magic), pos + 4),
            },
        }
    }

    fn decode(r: &mut Cursor) -> (res: Result<Magic, Error>) {
        let ghost expected = <Magic as Decodable>::spec_decode(r.data(), r.pos());
        let b = match <[u8; 4]>::decode(r) {
            Ok(b) => b,
            Err(_) => return Err(Error::MessageMagic),
        };
        assert(b@ =~= b.deep_view());
        let value: [u8; 4] = [b[3], b[2], b[1], b[0]];
        assert(value@ =~= b@.reverse());
        if value[0] == 0xD9 && value[1] == 0xB4 && value[2] == 0xBE && value[3] == 0xF9 {
            assert(value@ =~= spec_magic_value(Magic::MainNet));
            Ok(Magic::MainNet)
        } else if value[0] == 0x07 && value[1] == 0x09 && value[2] == 0x11 && value[3] == 0x0B {
            assert(value@ =~= spec_magic_value(Magic::TestNet));
            Ok(Magic::TestNet)
        } else if value[0] == 0xDA && value[1] == 0xB5 && value[2] == 0xBF && value[3] == 0xFA {
            assert(value@ =~= spec_magic_value(Magic::RegTest));
            Ok(Magic::RegTest)
        } else {
            assert(value@ != spec_magic_value(Magic::MainNet));
            assert(value@ != spec_magic_value(Magic::TestNet));
            assert(value@ != spec_magic_value(Magic::RegTest));
            Err(Error::Magic)
        }
    }
}

/// The checksum of a payload: the first four bytes of its double SHA-256
/// hash.
pub open spec fn spec_checksum(payload: Seq<u8>) -> Seq<u8> {
    let hash = spec_sha256(spec_sha256(payload));
    Seq::new(4, |i: int| hash[i])
}

/// The payload of a message, one variant per command.
#[derive(Debug, PartialEq, Eq)]
pub enum Payload {
    Version(Version),
    GetHeaders(GetHeaders),
    GetAddr(GetAddr),
    VerAck(VerAck),
    Alert(Alert),
    Addr(Addr),
    Ping(Ping),
    Pong(Pong),
    Inv(Inv),
}

/// The model of a [`Payload`].
pub enum SpecPayload {
    Version(SpecVersion),
    GetHeaders(SpecGetHeaders),
    GetAddr,
    VerAck,
    Alert(Seq<u8>),
    Addr(Seq<SpecTimedNetworkAddr>),
    Ping(u64),
    Pong(u64),
    Inv(Seq<u8>),
}

impl DeepView for Payload {
    type V = SpecPayload;

    open spec fn deep_view(&self) -> SpecPayload {
        match self {
            Payload::Version(m) => SpecPayload::Version(m.deep_view()),
            Payload::GetHeaders(m) => SpecPayload::GetHeaders(m.deep_view()),
            Payload::GetAddr(_) => SpecPayload::GetAddr,
            Payload::VerAck(_) => SpecPayload::VerAck,
            Payload::Alert(m) => SpecPayload::Alert(m.deep_view()),
            Payload::Addr(m) => SpecPayload::Addr(m.deep_view()),
            Payload::Ping(m) => SpecPayload::Ping(m.deep_view()),
            Payload::Pong(m) => SpecPayload::Pong(m.deep_view()),
            Payload::Inv(m) => SpecPayload::Inv(m.deep_view()),
        }
    }
}

/// The command a payload answers to.
pub open spec fn spec_payload_command(p: SpecPayload) -> Command {
    match p {
        SpecPayload::Version(_) => Command::Version,
        SpecPayload::GetHeaders(_) => Command::GetHeaders,
        SpecPayload::GetAddr => Command::GetAddr,
        SpecPayload::VerAck => Command::VerAck,
        SpecPayload::Alert(_) => Command::Alert,
        SpecPayload::Addr(_) => Command::Addr,
        SpecPayload::Ping(_) => Command::Ping,
        SpecPayload::Pong(_) => Command::Pong,
        SpecPayload::Inv(_) => Command::Inv,
    }
}

/// The bytes of a payload's body.
pub open spec fn spec_encode_body(p: SpecPayload) -> Seq<u8> {
    match p {
        SpecPayload::Version(v) => Version::spec_encode(v),
        SpecPayload::GetHeaders(g) => GetHeaders::spec_encode(g),
        SpecPayload::GetAddr => GetAddr::spec_encode(()),
        SpecPayload::VerAck => VerAck::spec_encode(()),
        SpecPayload::Alert(a) => Alert::spec_encode(a),
        SpecPayload::Addr(a) => Addr::spec_encode(a),
        SpecPayload::Ping(n) => Ping::spec_encode(n),
        SpecPayload::Pong(n) => Pong::spec_encode(n),
        SpecPayload::Inv(i) => Inv::spec_encode(i),
    }
}

/// Decoding the body of a `command` message from the start of `body`; the
/// errors of the body's own decoder are passed on.
pub open spec fn spec_decode_body(command: Command, body: Seq<u8>) -> Result<SpecPayload, Error> {
    match command {
        Command::Version => match Version::spec_decode(body, 0).0 {
            Ok(v) => Ok(SpecPayload::Version(v)),
            Err(e) => Err(e),
        },
        Command::GetHeaders => match GetHeaders::spec_decode(body, 0).0 {
            Ok(v) => Ok(SpecPayload::GetHeaders(v)),
            Err(e) => Err(e),
        },
        Command::GetAddr => match GetAddr::spec_decode(body, 0).0 {
            Ok(_) => Ok(SpecPayload::GetAddr),
            Err(e) => Err(e),
        },
        Command::VerAck => match VerAck::spec_decode(body, 0).0 {
            Ok(_) => Ok(SpecPayload::VerAck),
            Err(e) => Err(e),
        },
        Command::Alert => match Alert::spec_decode(body, 0).0 {
            Ok(v) => Ok(SpecPayload::Alert(v)),
            Err(e) => Err(e),
        },
        Command::Addr => match Addr::spec_decode(body, 0).0 {
            Ok(v) => Ok(SpecPayload::Addr(v)),
            Err(e) => Err(e),
        },
        Command::Ping => match Ping::spec_decode(body, 0).0 {
            Ok(v) => Ok(SpecPayload::Ping(v)),
            Err(e) => Err(e),
        },
        Command::Pong => match Pong::spec_decode(body, 0).0 {
            Ok(v) => Ok(SpecPayload::Pong(v)),
            Err(e) => Err(e),
        },
        Command::Inv => match Inv::spec_decode(body, 0).0 {
            Ok(v) => Ok(SpecPayload::Inv(v)),
            Err(e) => Err(e),
        },
    }
}

/// What a message with command name `name`, announced checksum `checksum`
/// and body `body` carries, once the body's checksum is known to be
/// `computed`: `PayloadChecksumInvalid` when the two checksums differ,
/// `CommandFromStr` when the name is no known command, else the decoded body.
pub open spec fn spec_from_body(
    name: Seq<char>,
    checksum: Seq<u8>,
    computed: Seq<u8>,
    body: Seq<u8>,
) -> Result<SpecPayload, Error> {
    if computed != checksum {
        Err(Error::PayloadChecksumInvalid)
    } else {
        match spec_command_from_name(name) {
            None => Err(Error::CommandFromStr),
            Some(c) => spec_decode_body(c, body),
        }
    }
}

impl Payload {
    /// The name of the payload's command.
    pub fn to_commandstring(&self) -> (s: CommandString)
        ensures
            s.0@ == spec_command_name(spec_payload_command(self.deep_view())),
    {
        let s = self.to_command().to_string();
        CommandString(s)
    }

    /// The payload's command.
    pub fn to_command(&self) -> (c: Command)
        ensures
            c == spec_payload_command(self.deep_view()),
    {
        match self {
            Payload::Version(_) => Command::Version,
            Payload::GetHeaders(_) => Command::GetHeaders,
            Payload::GetAddr(_) => Command::GetAddr,
            Payload::VerAck(_) => Command::VerAck,
            Payload::Alert(_) => Command::Alert,
            Payload::Addr(_) => Command::Addr,
            Payload::Ping(_) => Command::Ping,
            Payload::Pong(_) => Command::Pong,
            Payload::Inv(_) => Command::Inv,
        }
    }

    /// Decodes the body of a `command` message.
    pub fn decode_body(command: Command, body: &Vec<u8>) -> (res: Result<Payload, Error>)
        ensures
            result_matches(res, spec_decode_body(command, body@)),
    {
        let mut c = Cursor::new(body);
        match command {
            Command::Version => match Version::decode(&mut c) {
                Ok(m) => Ok(Payload::Version(m)),
                Err(e) => Err(e),
            },
            Command::GetHeaders => match GetHeaders::decode(&mut c) {
                Ok(m) => Ok(Payload::GetHeaders(m)),
                Err(e) => Err(e),
            },
            Command::GetAddr => match GetAddr::decode(&mut c) {
                Ok(m) => Ok(Payload::GetAddr(m)),
                Err(e) => Err(e),
            },
            Command::VerAck => match VerAck::decode(&mut c) {
                Ok(m) => Ok(Payload::VerAck(m)),
                Err(e) => Err(e),
            },
            Command::Alert => match Alert::decode(&mut c) {
                Ok(m) => Ok(Payload::Alert(m)),
                Err(e) => Err(e),
            },
            Command::Addr => match Addr::decode(&mut c) {
                Ok(m) => Ok(Payload::Addr(m)),
                Err(e) => Err(e),
            },
            Command::Ping => match Ping::decode(&mut c) {
                Ok(m) => Ok(Payload::Ping(m)),
                Err(e) => Err(e),
            },
            Command::Pong => match Pong::decode(&mut c) {
                Ok(m) => Ok(Payload::Pong(m)),
                Err(e) => Err(e),
            },
            Command::Inv => match Inv::decode(&mut c) {
                Ok(m) => Ok(Payload::Inv(m)),
                Err(e) => Err(e),
            },
        }
    }

    /// The payload of a message whose command name is `commandstring`, whose
    /// header announces `checksum`, and whose body `body` has the checksum
    /// `computed`.
    pub fn from_body(
        commandstring: &CommandString,
        checksum: [u8; 4],
        computed: [u8; 4],
        body: &Vec<u8>,
    ) -> (res: Result<Payload, Error>)
        ensures
            result_matches(res, spec_from_body(commandstring.0@, checksum@, computed@, body@)),
    {
        if computed[0] != checksum[0] || computed[1] != checksum[1] || computed[2] != checksum[2]
            || computed[3] != checksum[3] {
            assert(computed@[0] != checksum@[0] || computed@[1] != checksum@[1] || computed@[2]
                != checksum@[2] || computed@[3] != checksum@[3]);
            return Err(Error::PayloadChecksumInvalid);
        }
        assert(computed@ =~= checksum@);
        let command = match commandstring.to_command() {
            Ok(c) => c,
            Err(_) => return Err(Error::CommandFromStr),
        };
        Payload::decode_body(command, body)
    }
}

impl Encodable for Payload {
    /// The command name field, the body's length as a little-endian `u32`
    /// (cut to 32 bits), the body's checksum, then the body.
    open spec fn spec_encode(p: SpecPayload) -> Seq<u8> {
        let body = spec_encode_body(p);
        spec_command_field(spec_command_name(spec_payload_command(p))) + u32::spec_encode(
            body.len() as u32,
        ) + spec_checksum(body) + body
    }

    fn encode(&self, w: &mut Vec<u8>) -> (r: Result<(), Error>) {
        let ghost start = w@;
        let _ = self.to_commandstring().encode(w);
        let ghost after_command = w@;
        let mut buffer: Vec<u8> = Vec::new();
        let _ = match self {
            Payload::Version(m) => m.encode(&mut buffer),
            Payload::GetHeaders(m) => m.encode(&mut buffer),
            Payload::GetAddr(m) => m.encode(&mut buffer),
            Payload::VerAck(m) => m.encode(&mut buffer),
            Payload::Alert(m) => m.encode(&mut buffer),
            Payload::Addr(m) => m.encode(&mut buffer),
            Payload::Ping(m) => m.encode(&mut buffer),
            Payload::Pong(m) => m.encode(&mut buffer),
            Payload::Inv(m) => m.encode(&mut buffer),
        };
        assert(buffer@ =~= spec_encode_body(self.deep_view()));
        let payload_len = #[verifier::truncate] (buffer.len() as u32);
        let _ = payload_len.encode(w);
        let checksum = match Message::checksum(&buffer) {
            Ok(c) => c,
            Err(_) => return Err(Error::PayloadChecksum),
        };
        let _ = checksum.encode(w);
        let _ = buffer.encode(w);
        proof {
            assert(checksum.deep_view() =~= checksum@);
            assert(buffer.deep_view() =~= buffer@);
            assert(w@ =~= start + Self::spec_encode(self.deep_view()));
        }
        Ok(())
    }
}

impl Decodable for Payload {
    /// The command name (`PayloadCommandString` when it cannot be read), the
    /// payload length (`PayloadLen`), which may not exceed the whole buffer
    /// (`PayloadTooSmall`), the checksum (`PayloadChecksum`), and the body
    /// (`PayloadData` when it runs out); then what [`spec_from_body`] gives.
    open spec fn spec_decode(data: Seq<u8>, pos: int) -> (Result<SpecPayload, Error>, int) {
        let (name, p1) = CommandString::spec_decode(data, pos);
        let (len, p2) = u32::spec_decode(data, p1);
        let (checksum, p3) = <[u8; 4] as Decodable>::spec_decode(data, p2);
        if name is Err {
            (Err(Error::PayloadCommandString), p1)
        } else if len is Err {
            (Err(Error::PayloadLen), p2)
        } else if data.len() < len->Ok_0 {
            (Err(Error::PayloadTooSmall), p2)
        } else if checksum is Err {
            (Err(Error::PayloadChecksum), p3)
        } else {
            match field(data, p3, len->Ok_0 as int) {
                None => (Err(Error::PayloadData), p3),
                Some(body) => (
                    spec_from_body(name->Ok_0, checksum->Ok_0, spec_checksum(body), body),
                    p3 + len->Ok_0,
                ),
            }
        }
    }

    fn decode(r: &mut Cursor) -> (res: Result<Payload, Error>) {
        let ghost expected = <Payload as Decodable>::spec_decode(r.data(), r.pos());
        let commandstring = match CommandString::decode(r) {
            Ok(c) => c,
            Err(_) => return Err(Error::PayloadCommandString),
        };
        let payload_len = match u32::decode(r) {
            Ok(l) => l,
            Err(_) => return Err(Error::PayloadLen),
        };
        let reader_len = r.get_ref().len();
        if (reader_len as u64) < (payload_len as u64) {
            return Err(Error::PayloadTooSmall);
        }
        let checksum = match <[u8; 4]>::decode(r) {
            Ok(c) => c,
            Err(_) => return Err(Error::PayloadChecksum),
        };
        if r.remaining() < payload_len as usize {
            return Err(Error::PayloadData);
        }
        let buffer = r.take(payload_len as usize);
        let computed = match Message::checksum(&buffer) {
            Ok(c) => c,
            Err(_) => return Err(Error::PayloadChecksumData),
        };
        proof {
            assert(checksum@ =~= checksum.deep_view());
        }
        Payload::from_body(&commandstring, checksum, computed, &buffer)
    }
}

/// A framed message: the network it belongs to and its payload.
#[derive(Debug, PartialEq, Eq)]
pub struct Message {
    pub magic: Magic,
    pub payload: Payload,
}

/// The model of a [`Message`].
pub struct SpecMessage {
    pub magic: Magic,
    pub payload: SpecPayload,
}

impl DeepView for Message {
    type V = SpecMessage;

    open spec fn deep_view(&self) -> SpecMessage {
        SpecMessage { magic: self.magic, payload: self.payload.deep_view() }
    }
}

impl Message {
    /// The checksum of a payload: the first four bytes of the SHA-256 hash of
    /// its SHA-256 hash. Computing it never fails.
    pub fn checksum(payload: &Vec<u8>) -> (r: Result<[u8; 4], ()>)
        ensures
            r matches Ok(c) && c@ == spec_checksum(payload@),
    {
        let first = sha256_digest(payload.as_slice());
        let second = sha256_digest(first.as_slice());
        let hash: [u8; 4] = [second[0], second[1], second[2], second[3]];
        assert(hash@ =~= spec_checksum(payload@));
        Ok(hash)
    }
}

impl Encodable for Message {
    /// The magic value on the wire, then the payload.
    open spec fn spec_encode(m: SpecMessage) -> Seq<u8> {
        Magic::spec_encode(m.magic) + Payload::spec_encode(m.payload)
    }

    fn encode(&self, w: &mut Vec<u8>) -> (r: Result<(), Error>) {
        let ghost start = w@;
        let _ = self.magic.encode(w);
        let _ = self.payload.encode(w);
        assert(w@ =~= start + Self::spec_encode(self.deep_view()));
        Ok(())
    }
}

impl Decodable for Message {
    /// The magic value, then the payload; their errors are passed on.
    open spec fn spec_decode(data: Seq<u8>, pos: int) -> (Result<SpecMessage, Error>, int) {
        let (magic, p1) = Magic::spec_decode(data, pos);
        let (payload, p2) = Payload::spec_decode(data, p1);
        if magic is Err {
            (Err(magic->Err_0), p1)
        } else if payload is Err {
            (Err(payload->Err_0), p2)
        } else {
            (Ok(SpecMessage { magic: magic->Ok_0, payload: payload->Ok_0 }), p2)
        }
    }

    fn decode(r: &mut Cursor) -> (res: Result<Message, Error>) {
        let ghost expected = <Message as Decodable>::spec_decode(r.data(), r.pos());
        let magic = match Magic::decode(r) {
            Ok(m) => m,
            Err(e) => return Err(e),
        };
        let payload = match Payload::decode(r) {
            Ok(p) => p,
            Err(e) => return Err(e),
        };
        Ok(Message { magic: magic, payload: payload })
    }
}

/// Decoding messages one after another from `pos` to the end of `data`: the
/// messages, or the first error.
pub open spec fn spec_decode_messages(data: Seq<u8>, pos: int) -> (Result<Seq<SpecMessage>, Error>, int)
    decreases data.len() - pos,
{
    if pos >= data.len() {
        (Ok(Seq::empty()), pos)
    } else {
        let (m, p) = Message::spec_decode(data, pos);
        match m {
            Err(e) => (Err(e), p),
            Ok(x) => if p <= pos {
                (Err(Error::MessageNotReadFully), p)
            } else {
                let (rest, q) = spec_decode_messages(data, p);
                match rest {
                    Err(e) => (Err(e), q),
                    Ok(xs) => (Ok(seq![x] + xs), q),
                }
            },
        }
    }
}

impl Decodable for Vec<Message> {
    /// `MessageEmpty` for an empty buffer; otherwise messages up to the end
    /// of the buffer, of which there must be at least one
    /// (`MessageNotFound` otherwise).
    open spec fn spec_decode(data: Seq<u8>, pos: int) -> (Result<Seq<SpecMessage>, Error>, int) {
        if data.len() == 0 {
            (Err(Error::MessageEmpty), pos)
        } else {
            let (ms, p) = spec_decode_messages(data, pos);
            match ms {
                Err(e) => (Err(e), p),
                Ok(xs) => if xs.len() == 0 {
                    (Err(Error::MessageNotFound), p)
                } else {
                    (Ok(xs), p)
                },
            }
        }
    }

    fn decode(r: &mut Cursor) -> (res: Result<Vec<Message>, Error>) {
        let ghost expected = <Vec<Message> as Decodable>::spec_decode(r.data(), r.pos());
        let ghost data = r.data();
        let ghost start = r.pos();
        let len = r.get_ref().len();
        if len == 0 {
            return Err(Error::MessageEmpty);
        }
        let _ = r.offset();
        let mut result: Vec<Message> = Vec::new();
        proof {
            let all = spec_decode_messages(data, start);
            assert(result.deep_view() =~= Seq::<SpecMessage>::empty());
            match all.0 {
                Ok(xs) => {
                    assert(Seq::<SpecMessage>::empty() + xs =~= xs);
                },
                Err(_) => {},
            }
        }
        loop
            invariant
                r.data() == data,
                data == old(r).data(),
                start == old(r).pos(),
                len == data.len(),
                len > 0,
                r.pos() <= len,
                spec_decode_messages(data, start) == prepend(
                    result.deep_view(),
                    spec_decode_messages(data, r.pos()),
                ),
            ensures
                r.data() == data,
                r.pos() == len,
                spec_decode_messages(data, start) == prepend(
                    result.deep_view(),
                    spec_decode_messages(data, r.pos()),
                ),
            decreases len - r.pos(),
        {
            if r.offset() == len {
                break ;
            }
            let before = r.offset();
            let ghost seen = result.deep_view();
            proof {
                lemma_decode_messages_step(data, before as int, seen);
            }
            let message = match Message::decode(r) {
                Ok(m) => m,
                Err(e) => return Err(e),
            };
            if r.offset() <= before {
                return Err(Error::MessageNotReadFully);
            }
            result.push(message);
            assert(result.deep_view() =~= seen.push(message.deep_view()));
        }
        proof {
            let xs = result.deep_view();
            assert(spec_decode_messages(data, r.pos()) == (Ok::<Seq<SpecMessage>, Error>(Seq::empty()), r.pos()));
            assert(xs + Seq::<SpecMessage>::empty() =~= xs);
        }
        if result.len() == 0 {
            return Err(Error::MessageNotFound);
        }
        Ok(result)
    }
}

/// One step of decoding messages at `pos`: an error of the message there is
/// the error of the whole, and a message that moves the position forward
/// comes before the messages that follow it.
proof fn lemma_decode_messages_step(data: Seq<u8>, pos: int, seen: Seq<SpecMessage>)
    requires
        0 <= pos < data.len(),
    ensures
        ({
            let (m, p) = Message::spec_decode(data, pos);
            &&& m is Err ==> prepend(seen, spec_decode_messages(data, pos)) == (
                Err::<Seq<SpecMessage>, Error>(m->Err_0),
                p,
            )
            &&& m is Ok && p <= pos ==> prepend(seen, spec_decode_messages(data, pos)) == (
                Err::<Seq<SpecMessage>, Error>(Error::MessageNotReadFully),
                p,
            )
            &&& m is Ok && p > pos ==> prepend(seen, spec_decode_messages(data, pos)) == prepend(
                seen.push(m->Ok_0),
                spec_decode_messages(data, p),
            )
        }),
{
    let (m, p) = Message::spec_decode(data, pos);
    if m is Ok && p > pos {
        let rest = spec_decode_messages(data, p);
        match rest.0 {
            Ok(xs) => {
                assert(seen + (seq![m->Ok_0] + xs) =~= seen.push(m->Ok_0) + xs);
            },
            Err(_) => {},
        }
    }
}

impl Encodable for Vec<Message> {
    /// The messages one after another.
    open spec fn spec_encode(ms: Seq<SpecMessage>) -> Seq<u8> {
        spec_encode_items::<Message>(ms)
    }

    fn encode(&self, w: &mut Vec<u8>) -> (r: Result<(), Error>) {
        encode_items(self, w);
        Ok(())
    }
}

} // verus!
