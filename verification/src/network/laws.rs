//! What decoding gives back of what encoding wrote, for every message.
use vstd::prelude::*;
use vstd::bytes::lemma_auto_spec_u32_to_from_le_bytes;
use vstd::utf8::{encode_utf8, encode_utf8_decode_utf8, encode_utf8_valid_utf8};

use crate::encode::encode::{holds_at, Decodable, Encodable, NetworkDecodable, NetworkEncodable};
use crate::encode::error::Error;
use crate::encode::laws::{
    lemma_array_reads_back, lemma_bool_reads_back, lemma_counted_read_back, lemma_holds_at_split,
    lemma_integers_read_back, lemma_u16_network_reads_back, lemma_var_bytes_read_back,
    lemma_counted_encode_back, spec_encodes_back, spec_reads_back, spec_shortest_count_at,
};
use crate::encode::varint::VarInt;
use crate::network::addr::Addr;
use crate::network::alert::Alert;
use crate::encode::list::spec_encode_items;
use crate::network::command::{lemma_command_field_reads_back, lemma_command_name, spec_command_field, spec_command_name, CommandString};
use crate::network::getaddr::GetAddr;
use crate::network::message::{
    spec_checksum, spec_decode_body, spec_decode_messages, spec_encode_body, spec_magic_value,
    spec_payload_command, Magic, Message, Payload, SpecMessage, SpecPayload,
};
use crate::network::getheaders::{GetHeaders, SpecGetHeaders};
use crate::network::inv::Inv;
use crate::network::networkaddr::{NetworkAddr, SpecNetworkAddr, SpecTimedNetworkAddr, TimedNetworkAddr};
use crate::network::ping::Ping;
use crate::network::pong::Pong;
use crate::network::verack::VerAck;
use crate::network::version::{
    spec_absent_addr, spec_decode_sender_fields, spec_encode_sender_fields, spec_known_bits,
    spec_only_known, spec_user_agent_field, Service, SpecVersion, Version, VERSION_RELAY_FIELD,
    VERSION_SENDER_FIELDS,
};
use crate::utils::sha256::Sha256;

verus! {

/// An address that can be written and read back: known services only, and
/// sixteen address bytes.
pub open spec fn spec_wellformed_addr(a: SpecNetworkAddr) -> bool {
    spec_only_known(a.services) && a.ip.len() == 16
}

/// Locators and stop hash of 32 bytes each.
pub open spec fn spec_wellformed_getheaders(g: SpecGetHeaders) -> bool {
    &&& g.stop.len() == 32
    &&& g.locators.len() <= u64::MAX
    &&& forall|i: int| 0 <= i < g.locators.len() ==> (#[trigger] g.locators[i]).len() == 32
}

/// A `version` that can be written and read back: known services,
/// well-formed addresses, a user agent whose byte count fits a `u64`; below
/// protocol 106 the fields it does not carry hold what decoding gives for
/// them, and below protocol 70001 `relay` is `true`.
pub open spec fn spec_wellformed_version(v: SpecVersion) -> bool {
    &&& spec_only_known(v.services)
    &&& spec_wellformed_addr(v.receiver)
    &&& spec_wellformed_addr(v.sender)
    &&& encode_utf8(v.user_agent).len() <= u64::MAX
    &&& v.version < VERSION_SENDER_FIELDS ==> {
        &&& v.sender == spec_absent_addr()
        &&& v.nonce == 0
        &&& v.user_agent.len() == 0
        &&& v.start_height == 0
    }
    &&& v.version < VERSION_RELAY_FIELD ==> v.relay
}

/// Addresses that can be written and read back.
pub open spec fn spec_wellformed_addrs(addrs: Seq<SpecTimedNetworkAddr>) -> bool {
    &&& addrs.len() <= u64::MAX
    &&& forall|i: int| 0 <= i < addrs.len() ==> spec_wellformed_addr(#[trigger] addrs[i].addr)
}

/// A hash reads back.
pub proof fn lemma_sha256_reads_back(h: Seq<u8>)
    requires
        h.len() == 32,
    ensures
        spec_reads_back::<Sha256>(h),
{
    lemma_array_reads_back::<32>(h);
}

/// Service flags read back when they are all known.
pub proof fn lemma_service_reads_back(bits: u64)
    requires
        spec_only_known(bits),
    ensures
        spec_reads_back::<Service>(bits),
{
    lemma_integers_read_back(bits, 0, 0, 0, 0, 0, 0, 0);
    assert(bits & 1039u64 == bits) by (bit_vector)
        requires
            bits & !1039u64 == 0,
    ;
    assert(spec_known_bits(bits) == bits);
}

/// A well-formed address reads back.
pub proof fn lemma_network_addr_reads_back(a: SpecNetworkAddr)
    requires
        spec_wellformed_addr(a),
    ensures
        spec_reads_back::<NetworkAddr>(a),
{
    assert forall|data: Seq<u8>, pos: int| holds_at(data, pos, NetworkAddr::spec_encode(a)) implies
        #[trigger] NetworkAddr::spec_decode(data, pos) == (
            Ok::<SpecNetworkAddr, Error>(a),
            pos + NetworkAddr::spec_encode(a).len(),
        ) by {
        let s = Service::spec_encode(a.services);
        let p = u16::spec_encode_network(a.port);
        assert(NetworkAddr::spec_encode(a) == s + a.ip + p);
        lemma_holds_at_split(data, pos, s + a.ip, p);
        lemma_holds_at_split(data, pos, s, a.ip);
        lemma_service_reads_back(a.services);
        lemma_array_reads_back::<16>(a.ip);
        lemma_u16_network_reads_back(a.port, data, pos + s.len() + a.ip.len());
        vstd::bytes::lemma_auto_spec_u16_to_from_le_bytes();
        assert(p.len() == 2);
    }
}

/// A well-formed timed address reads back.
pub proof fn lemma_timed_addr_reads_back(a: SpecTimedNetworkAddr)
    requires
        spec_wellformed_addr(a.addr),
    ensures
        spec_reads_back::<TimedNetworkAddr>(a),
{
    assert forall|data: Seq<u8>, pos: int| holds_at(data, pos, TimedNetworkAddr::spec_encode(a)) implies
        #[trigger] TimedNetworkAddr::spec_decode(data, pos) == (
            Ok::<SpecTimedNetworkAddr, Error>(a),
            pos + TimedNetworkAddr::spec_encode(a).len(),
        ) by {
        let t = u32::spec_encode(a.time);
        lemma_holds_at_split(data, pos, t, NetworkAddr::spec_encode(a.addr));
        lemma_integers_read_back(0, a.time, 0, 0, 0, 0, 0, 0);
        lemma_network_addr_reads_back(a.addr);
    }
}

/// Well-formed addresses read back, as a counted list and as an `addr`
/// message.
pub proof fn lemma_addr_reads_back(addrs: Seq<SpecTimedNetworkAddr>)
    requires
        spec_wellformed_addrs(addrs),
    ensures
        spec_reads_back::<Vec<TimedNetworkAddr>>(addrs),
        spec_reads_back::<Addr>(addrs),
{
    assert forall|i: int| 0 <= i < addrs.len() implies spec_reads_back::<TimedNetworkAddr>(
        #[trigger] addrs[i],
    ) by {
        lemma_timed_addr_reads_back(addrs[i]);
    }
    assert forall|data: Seq<u8>, pos: int|
        holds_at(data, pos, <Vec<TimedNetworkAddr> as Encodable>::spec_encode(addrs)) implies
        #[trigger] <Vec<TimedNetworkAddr> as Decodable>::spec_decode(data, pos) == (
            Ok::<Seq<SpecTimedNetworkAddr>, Error>(addrs),
            pos + <Vec<TimedNetworkAddr> as Encodable>::spec_encode(addrs).len(),
        ) by {
        lemma_counted_read_back::<TimedNetworkAddr>(addrs, data, pos, Error::TimedNetworkCount);
    }
}

/// A well-formed `getheaders` reads back.
pub proof fn lemma_getheaders_reads_back(g: SpecGetHeaders)
    requires
        spec_wellformed_getheaders(g),
    ensures
        spec_reads_back::<GetHeaders>(g),
{
    assert forall|i: int| 0 <= i < g.locators.len() implies spec_reads_back::<Sha256>(
        #[trigger] g.locators[i],
    ) by {
        lemma_sha256_reads_back(g.locators[i]);
    }
    assert forall|data: Seq<u8>, pos: int| holds_at(data, pos, GetHeaders::spec_encode(g)) implies
        #[trigger] GetHeaders::spec_decode(data, pos) == (
            Ok::<SpecGetHeaders, Error>(g),
            pos + GetHeaders::spec_encode(g).len(),
        ) by {
        let v = u32::spec_encode(g.version);
        let l = <Vec<Sha256> as Encodable>::spec_encode(g.locators);
        lemma_holds_at_split(data, pos, v + l, g.stop);
        lemma_holds_at_split(data, pos, v, l);
        lemma_integers_read_back(0, g.version, 0, 0, 0, 0, 0, 0);
        lemma_counted_read_back::<Sha256>(g.locators, data, pos + v.len(), Error::Sha256Count);
        lemma_sha256_reads_back(g.stop);
    }
}

/// A hash encodes back to the 32 bytes it was read from.
proof fn lemma_sha256_encodes_back()
    ensures
        spec_encodes_back::<Sha256>(),
{
    assert forall|data: Seq<u8>, pos: int| #[trigger] Sha256::spec_decode(data, pos).0 is Ok implies {
        &&& 0 <= pos <= Sha256::spec_decode(data, pos).1 <= data.len()
        &&& Sha256::spec_encode(Sha256::spec_decode(data, pos).0->Ok_0) == data.subrange(
            pos,
            Sha256::spec_decode(data, pos).1,
        )
    } by {}
}

/// A `getheaders` whose locator count is written in its shortest form
/// encodes back to exactly the bytes it was decoded from.
pub proof fn lemma_getheaders_encodes_back(data: Seq<u8>, pos: int)
    requires
        0 <= pos <= data.len(),
        GetHeaders::spec_decode(data, pos).0 is Ok,
        spec_shortest_count_at(data, pos + 4),
    ensures
        GetHeaders::spec_encode(GetHeaders::spec_decode(data, pos).0->Ok_0) == data.subrange(
            pos,
            GetHeaders::spec_decode(data, pos).1,
        ),
{
    lemma_auto_spec_u32_to_from_le_bytes();
    lemma_sha256_encodes_back();
    let p1 = pos + 4;
    lemma_counted_encode_back::<Sha256>(data, p1, Error::Sha256Count);
    let (ls, p2) = <Vec<Sha256> as Decodable>::spec_decode(data, p1);
    let p3 = p2 + 32;
    assert(data.subrange(pos, p1).len() == 4);
    assert(data.subrange(pos, p3) =~= data.subrange(pos, p1) + data.subrange(p1, p2) + data.subrange(
        p2,
        p3,
    ));
}

/// `alert`, `inv`, `ping`, `pong`, `getaddr` and `verack` read back.
pub proof fn lemma_simple_messages_read_back(alert: Seq<u8>, inv: Seq<u8>, ping: u64, pong: u64)
    requires
        alert.len() <= u64::MAX,
        inv.len() <= u64::MAX,
    ensures
        spec_reads_back::<Alert>(alert),
        spec_reads_back::<Inv>(inv),
        spec_reads_back::<Ping>(ping),
        spec_reads_back::<Pong>(pong),
        spec_reads_back::<GetAddr>(()),
        spec_reads_back::<VerAck>(()),
{
    assert forall|data: Seq<u8>, pos: int| holds_at(data, pos, Alert::spec_encode(alert)) implies
        #[trigger] Alert::spec_decode(data, pos) == (
            Ok::<Seq<u8>, Error>(alert),
            pos + Alert::spec_encode(alert).len(),
        ) by {
        lemma_var_bytes_read_back(alert, data, pos, Error::AlertLen, Error::AlertMessage);
    }
    assert forall|data: Seq<u8>, pos: int| holds_at(data, pos, Inv::spec_encode(inv)) implies
        #[trigger] Inv::spec_decode(data, pos) == (
            Ok::<Seq<u8>, Error>(inv),
            pos + Inv::spec_encode(inv).len(),
        ) by {
        lemma_var_bytes_read_back(inv, data, pos, Error::InvLen, Error::InvMessage);
    }
    lemma_integers_read_back(ping, 0, 0, 0, 0, 0, 0, 0);
    lemma_integers_read_back(pong, 0, 0, 0, 0, 0, 0, 0);
}

/// The user agent field reads back when its byte count fits a `u64`.
pub proof fn lemma_user_agent_reads_back(user_agent: Seq<char>, data: Seq<u8>, pos: int)
    requires
        encode_utf8(user_agent).len() <= u64::MAX,
        holds_at(data, pos, spec_user_agent_field(user_agent)),
    ensures
        crate::network::version::spec_decode_user_agent(data, pos) == (
            Ok::<Seq<char>, Error>(user_agent),
            pos + spec_user_agent_field(user_agent).len(),
        ),
{
    let bytes = encode_utf8(user_agent);
    let len = bytes.len() as u64;
    let head = VarInt::spec_encode(len);
    lemma_holds_at_split(data, pos, head, bytes);
    crate::encode::varint::lemma_varint_roundtrip(len, data, pos);
    let p = pos + head.len();
    assert(data.subrange(p, p + bytes.len()) == bytes);
    encode_utf8_valid_utf8(user_agent);
    encode_utf8_decode_utf8(user_agent);
}

/// The fields that protocol 106 added read back.
#[verifier::rlimit(40)]
proof fn lemma_sender_fields_read_back(v: SpecVersion, data: Seq<u8>, pos: int)
    requires
        spec_wellformed_version(v),
        holds_at(data, pos, spec_encode_sender_fields(v)),
    ensures
        spec_decode_sender_fields(data, pos) == (
            Ok::<(SpecNetworkAddr, u64, Seq<char>, i32), Error>(
                (v.sender, v.nonce, v.user_agent, v.start_height),
            ),
            pos + spec_encode_sender_fields(v).len(),
        ),
{
    let e5 = NetworkAddr::spec_encode(v.sender);
    let e6 = u64::spec_encode(v.nonce);
    let e7 = spec_user_agent_field(v.user_agent);
    let e8 = i32::spec_encode(v.start_height);
    assert(spec_encode_sender_fields(v) == e5 + e6 + e7 + e8);
    lemma_holds_at_split(data, pos, e5 + e6 + e7, e8);
    lemma_holds_at_split(data, pos, e5 + e6, e7);
    lemma_holds_at_split(data, pos, e5, e6);
    lemma_network_addr_reads_back(v.sender);
    lemma_integers_read_back(v.nonce, 0, 0, 0, 0, v.start_height, 0, 0);
    lemma_user_agent_reads_back(v.user_agent, data, pos + e5.len() + e6.len());
}

/// A well-formed `version` reads back.
#[verifier::rlimit(40)]
pub proof fn lemma_version_reads_back(v: SpecVersion)
    requires
        spec_wellformed_version(v),
    ensures
        spec_reads_back::<Version>(v),
{
    assert forall|data: Seq<u8>, pos: int| holds_at(data, pos, Version::spec_encode(v)) implies
        #[trigger] Version::spec_decode(data, pos) == (
            Ok::<SpecVersion, Error>(v),
            pos + Version::spec_encode(v).len(),
        ) by {
        let e1 = i32::spec_encode(v.version);
        let e2 = Service::spec_encode(v.services);
        let e3 = i64::spec_encode(v.timestamp);
        let e4 = NetworkAddr::spec_encode(v.receiver);
        let e5 = if v.version >= VERSION_SENDER_FIELDS {
            spec_encode_sender_fields(v)
        } else {
            Seq::empty()
        };
        let e9 = if v.version >= VERSION_RELAY_FIELD {
            bool::spec_encode(v.relay)
        } else {
            Seq::empty()
        };
        assert(Version::spec_encode(v) == e1 + e2 + e3 + e4 + e5 + e9);
        lemma_holds_at_split(data, pos, e1 + e2 + e3 + e4 + e5, e9);
        lemma_holds_at_split(data, pos, e1 + e2 + e3 + e4, e5);
        lemma_holds_at_split(data, pos, e1 + e2 + e3, e4);
        lemma_holds_at_split(data, pos, e1 + e2, e3);
        lemma_holds_at_split(data, pos, e1, e2);
        lemma_integers_read_back(0, 0, 0, 0, v.timestamp, v.version, 0, 0);
        lemma_bool_reads_back(v.relay);
        lemma_service_reads_back(v.services);
        lemma_network_addr_reads_back(v.receiver);
        let p4 = pos + e1.len() + e2.len() + e3.len() + e4.len();
        if v.version >= VERSION_SENDER_FIELDS {
            lemma_sender_fields_read_back(v, data, p4);
        } else {
            assert(v.user_agent =~= Seq::<char>::empty());
            assert(v.sender.ip =~= spec_absent_addr().ip);
        }
    }
}

/// A payload that can be written and read back: a well-formed body whose
/// length fits the 32-bit length field.
pub open spec fn spec_wellformed_payload(p: SpecPayload) -> bool {
    &&& spec_encode_body(p).len() <= u32::MAX
    &&& match p {
        SpecPayload::Version(v) => spec_wellformed_version(v),
        SpecPayload::GetHeaders(g) => spec_wellformed_getheaders(g),
        SpecPayload::Alert(a) => a.len() <= u64::MAX,
        SpecPayload::Addr(a) => spec_wellformed_addrs(a),
        SpecPayload::Inv(i) => i.len() <= u64::MAX,
        _ => true,
    }
}

/// Decoding a body as its command's message gives back the payload.
#[verifier::spinoff_prover]
#[verifier::rlimit(80)]
pub proof fn lemma_body_reads_back(p: SpecPayload)
    requires
        spec_wellformed_payload(p),
    ensures
        spec_decode_body(spec_payload_command(p), spec_encode_body(p)) == Ok::<SpecPayload, Error>(p),
{
    let body = spec_encode_body(p);
    assert(holds_at(body, 0, body)) by {
        assert(body.subrange(0, body.len() as int) =~= body);
    }
    match p {
        SpecPayload::Version(v) => {
            lemma_version_reads_back(v);
        },
        SpecPayload::GetHeaders(g) => {
            lemma_getheaders_reads_back(g);
        },
        SpecPayload::GetAddr => {
            lemma_simple_messages_read_back(Seq::empty(), Seq::empty(), 0, 0);
        },
        SpecPayload::VerAck => {
            lemma_simple_messages_read_back(Seq::empty(), Seq::empty(), 0, 0);
        },
        SpecPayload::Alert(a) => {
            lemma_simple_messages_read_back(a, Seq::empty(), 0, 0);
        },
        SpecPayload::Addr(a) => {
            lemma_addr_reads_back(a);
        },
        SpecPayload::Ping(n) => {
            lemma_simple_messages_read_back(Seq::empty(), Seq::empty(), n, 0);
        },
        SpecPayload::Pong(n) => {
            lemma_simple_messages_read_back(Seq::empty(), Seq::empty(), 0, n);
        },
        SpecPayload::Inv(i) => {
            lemma_simple_messages_read_back(Seq::empty(), i, 0, 0);
        },
    }
}

/// A well-formed payload, framed with its command, length and checksum,
/// reads back.
pub proof fn lemma_payload_reads_back(p: SpecPayload)
    requires
        spec_wellformed_payload(p),
    ensures
        spec_reads_back::<Payload>(p),
{
    assert forall|data: Seq<u8>, pos: int| holds_at(data, pos, Payload::spec_encode(p)) implies
        #[trigger] Payload::spec_decode(data, pos) == (
            Ok::<SpecPayload, Error>(p),
            pos + Payload::spec_encode(p).len(),
        ) by {
        let c = spec_payload_command(p);
        let body = spec_encode_body(p);
        let f = spec_command_field(spec_command_name(c));
        let l = u32::spec_encode(body.len() as u32);
        let k = spec_checksum(body);
        assert(Payload::spec_encode(p) == f + l + k + body);
        lemma_holds_at_split(data, pos, f + l + k, body);
        lemma_holds_at_split(data, pos, f + l, k);
        lemma_holds_at_split(data, pos, f, l);
        lemma_command_field_reads_back(c, data, pos);
        lemma_command_name(c);
        lemma_integers_read_back(0, body.len() as u32, 0, 0, 0, 0, 0, 0);
        vstd::bytes::lemma_auto_spec_u32_to_from_le_bytes();
        assert(l.len() == 4);
        assert(k.len() == 4);
        lemma_array_reads_back::<4>(k);
        assert(f.len() == 12);
        let p3 = pos + 20;
        assert(data.subrange(p3, p3 + body.len()) == body);
        lemma_body_reads_back(p);
    }
}

/// The magic value of a network reads back.
pub proof fn lemma_magic_reads_back(m: Magic)
    ensures
        spec_reads_back::<Magic>(m),
{
    assert(spec_magic_value(Magic::MainNet)[0] == 0xD9);
    assert(spec_magic_value(Magic::TestNet)[0] == 0x07);
    assert(spec_magic_value(Magic::RegTest)[0] == 0xDA);
    assert forall|data: Seq<u8>, pos: int| holds_at(data, pos, Magic::spec_encode(m)) implies
        #[trigger] Magic::spec_decode(data, pos) == (
            Ok::<Magic, Error>(m),
            pos + Magic::spec_encode(m).len(),
        ) by {
        let v = spec_magic_value(m);
        assert(v.reverse().reverse() =~= v);
        assert(data.subrange(pos, pos + 4) == v.reverse());
    }
}

/// A message that can be written and read back.
pub open spec fn spec_wellformed_message(m: SpecMessage) -> bool {
    spec_wellformed_payload(m.payload)
}

/// A well-formed message reads back.
pub proof fn lemma_message_reads_back(m: SpecMessage)
    requires
        spec_wellformed_message(m),
    ensures
        spec_reads_back::<Message>(m),
        Message::spec_encode(m).len() > 0,
{
    assert(Magic::spec_encode(m.magic).len() == 4);
    assert forall|data: Seq<u8>, pos: int| holds_at(data, pos, Message::spec_encode(m)) implies
        #[trigger] Message::spec_decode(data, pos) == (
            Ok::<SpecMessage, Error>(m),
            pos + Message::spec_encode(m).len(),
        ) by {
        let a = Magic::spec_encode(m.magic);
        let b = Payload::spec_encode(m.payload);
        lemma_holds_at_split(data, pos, a, b);
        lemma_magic_reads_back(m.magic);
        lemma_payload_reads_back(m.payload);
    }
}

/// Well-formed messages written one after another, up to the end of the
/// buffer, read back one after another.
pub proof fn lemma_messages_read_back(ms: Seq<SpecMessage>, data: Seq<u8>, pos: int)
    requires
        forall|i: int| 0 <= i < ms.len() ==> spec_wellformed_message(#[trigger] ms[i]),
        holds_at(data, pos, spec_encode_items::<Message>(ms)),
        pos + spec_encode_items::<Message>(ms).len() == data.len(),
    ensures
        spec_decode_messages(data, pos) == (Ok::<Seq<SpecMessage>, Error>(ms), data.len() as int),
    decreases ms.len(),
{
    if ms.len() == 0 {
        assert(Seq::<SpecMessage>::empty() =~= ms);
    } else {
        let first = Message::spec_encode(ms[0]);
        let rest = ms.drop_first();
        assert(spec_encode_items::<Message>(ms) == first + spec_encode_items::<Message>(rest));
        lemma_holds_at_split(data, pos, first, spec_encode_items::<Message>(rest));
        assert(spec_wellformed_message(ms[0]));
        lemma_message_reads_back(ms[0]);
        assert forall|i: int| 0 <= i < rest.len() implies spec_wellformed_message(#[trigger] rest[i]) by {
            assert(rest[i] == ms[i + 1]);
        }
        lemma_messages_read_back(rest, data, pos + first.len());
        assert(seq![ms[0]] + rest =~= ms);
    }
}

/// A buffer that holds well-formed messages, and nothing else, decodes to
/// those messages.
pub proof fn lemma_message_list_reads_back(ms: Seq<SpecMessage>)
    requires
        ms.len() > 0,
        forall|i: int| 0 <= i < ms.len() ==> spec_wellformed_message(#[trigger] ms[i]),
    ensures
        <Vec<Message> as Decodable>::spec_decode(spec_encode_items::<Message>(ms), 0) == (
            Ok::<Seq<SpecMessage>, Error>(ms),
            spec_encode_items::<Message>(ms).len() as int,
        ),
{
    let data = spec_encode_items::<Message>(ms);
    assert(data.subrange(0, data.len() as int) =~= data);
    lemma_messages_read_back(ms, data, 0);
    let first = Message::spec_encode(ms[0]);
    assert(data == first + spec_encode_items::<Message>(ms.drop_first()));
    lemma_message_reads_back(ms[0]);
}

} // verus!
