//! The messages a walk sends.
use vstd::prelude::*;
use rand::Rng;

use crate::network::getaddr::GetAddr;
use crate::encode::encode::Encodable;
use crate::network::command::Command;
use crate::network::message::{spec_payload_command, Magic, Message, Payload, SpecMessage, SpecPayload};
use crate::network::networkaddr::{spec_ipv4_mapped, NetworkAddr, SpecNetworkAddr};
use crate::network::verack::VerAck;
use crate::network::version::{Service, SpecVersion, Version};

verus! {

/// The protocol version a walk announces.
pub const PROTOCOL_VERSION: i32 = 70002;

/// The block height a walk announces.
pub const START_HEIGHT: i32 = 557409;

/// `chrono::Local::now().timestamp()`: the current time, in UNIX seconds.
/// Nothing is stated of the result: it is the machine's clock.
#[verifier::external_body]
fn now_timestamp() -> i64 {
    chrono::Local::now().timestamp()
}

/// `rand::thread_rng().gen::<u64>()`: a random number. Nothing is stated of
/// the result.
#[verifier::external_body]
fn random_nonce() -> u64 {
    rand::thread_rng().gen::<u64>()
}

/// The address a walk gives for both ends in its `version`: no address
/// (`0.0.0.0`, IPv4-mapped), port 0, full-node service.
pub open spec fn spec_unknown_addr() -> SpecNetworkAddr {
    SpecNetworkAddr { services: 1, ip: spec_ipv4_mapped(seq![0u8, 0u8, 0u8, 0u8]), port: 0 }
}

/// The `version` message of a walk, sent at `timestamp` with `nonce`.
pub open spec fn spec_version_message(timestamp: i64, nonce: u64) -> SpecMessage {
    SpecMessage {
        magic: Magic::MainNet,
        payload: SpecPayload::Version(
            SpecVersion {
                version: PROTOCOL_VERSION,
                services: 1,
                timestamp: timestamp,
                receiver: spec_unknown_addr(),
                sender: spec_unknown_addr(),
                nonce: nonce,
                user_agent: "/rbtc:0.17.0.1/"@,
                start_height: START_HEIGHT,
                relay: false,
            },
        ),
    }
}

fn unknown_addr() -> (a: NetworkAddr)
    ensures
        a.deep_view() == spec_unknown_addr(),
{
    let octets: [u8; 4] = [0u8, 0u8, 0u8, 0u8];
    let ip = NetworkAddr::ipv4_mapped(octets);
    assert(octets.deep_view() =~= seq![0u8, 0u8, 0u8, 0u8]);
    NetworkAddr { services: Service::network(), ip: ip, port: 0 }
}

/// The `getaddr` message of a walk.
pub open spec fn spec_getaddr_message() -> SpecMessage {
    SpecMessage { magic: Magic::MainNet, payload: SpecPayload::GetAddr }
}

/// The `verack` message of a walk.
pub open spec fn spec_verack_message() -> SpecMessage {
    SpecMessage { magic: Magic::MainNet, payload: SpecPayload::VerAck }
}

/// The messages a walk sends.
pub struct MessageProvider {}

impl MessageProvider {
    /// The `version` message of a walk, sent now with a random nonce.
    pub fn version() -> (v: Vec<Message>)
        ensures
            exists|timestamp: i64, nonce: u64|
                v.deep_view() == seq![spec_version_message(timestamp, nonce)],
    {
        let timestamp = now_timestamp();
        let nonce = random_nonce();
        MessageProvider::version_at(timestamp, nonce)
    }

    /// The `version` message of a walk, sent at `timestamp` with `nonce`.
    pub fn version_at(timestamp: i64, nonce: u64) -> (v: Vec<Message>)
        ensures
            v.deep_view() == seq![spec_version_message(timestamp, nonce)],
    {
        let version = Version {
            version: PROTOCOL_VERSION,
            services: Service::network(),
            timestamp: timestamp,
            receiver: unknown_addr(),
            sender: unknown_addr(),
            nonce: nonce,
            user_agent: "/rbtc:0.17.0.1/".to_owned(),
            start_height: START_HEIGHT,
            relay: false,
        };
        let v = vec![Message { magic: Magic::MainNet, payload: Payload::Version(version) }];
        assert(v.deep_view() =~= seq![spec_version_message(timestamp, nonce)]);
        v
    }

    /// The `getaddr` message.
    pub fn getaddr() -> (v: Vec<Message>)
        ensures
            v.deep_view() == seq![spec_getaddr_message()],
    {
        let v = vec![Message { magic: Magic::MainNet, payload: Payload::GetAddr(GetAddr {}) }];
        assert(v.deep_view() =~= seq![spec_getaddr_message()]);
        v
    }

    /// The `verack` message.
    pub fn verack() -> (v: Vec<Message>)
        ensures
            v.deep_view() == seq![spec_verack_message()],
    {
        let v = vec![Message { magic: Magic::MainNet, payload: Payload::VerAck(VerAck {}) }];
        assert(v.deep_view() =~= seq![spec_verack_message()]);
        v
    }
}

/// The four bytes that open every message on the main Bitcoin network.
pub open spec fn spec_mainnet_start() -> Seq<u8> {
    seq![0xF9u8, 0xBEu8, 0xB4u8, 0xD9u8]
}

/// The address `0.0.0.0` as the walk gives it: sixteen bytes, IPv4-mapped.
pub open spec fn spec_zero_ipv4_bytes() -> Seq<u8> {
    seq![0u8, 0u8, 0u8, 0u8, 0u8, 0u8, 0u8, 0u8, 0u8, 0u8, 0xFFu8, 0xFFu8, 0u8, 0u8, 0u8, 0u8]
}

/// The messages a walk sends go to the main network: each one's encoding
/// opens with `F9 BE B4 D9`. The `version` one is a protocol-70002 `version`
/// from a full node, sent at `timestamp` with `nonce`, with `0.0.0.0:0` for
/// both ends, user agent `/rbtc:0.17.0.1/`, height 557409 and no relaying;
/// the others are a `getaddr` and a `verack`.
pub proof fn lemma_walk_messages(timestamp: i64, nonce: u64)
    ensures
        Message::spec_encode(spec_version_message(timestamp, nonce)).take(4) == spec_mainnet_start(),
        Message::spec_encode(spec_getaddr_message()).take(4) == spec_mainnet_start(),
        Message::spec_encode(spec_verack_message()).take(4) == spec_mainnet_start(),
        spec_payload_command(spec_version_message(timestamp, nonce).payload) == Command::Version,
        spec_payload_command(spec_getaddr_message().payload) == Command::GetAddr,
        spec_payload_command(spec_verack_message().payload) == Command::VerAck,
        spec_version_message(timestamp, nonce).payload matches SpecPayload::Version(v) && {
            &&& v.version == 70002
            &&& v.services == 1
            &&& v.timestamp == timestamp
            &&& v.nonce == nonce
            &&& v.receiver.services == 1 && v.receiver.port == 0
            &&& v.receiver.ip == spec_zero_ipv4_bytes()
            &&& v.sender.services == 1 && v.sender.port == 0
            &&& v.sender.ip == spec_zero_ipv4_bytes()
            &&& v.user_agent == "/rbtc:0.17.0.1/"@
            &&& v.start_height == 557409
            &&& !v.relay
        },
{
    assert(spec_ipv4_mapped(seq![0u8, 0u8, 0u8, 0u8]) =~= spec_zero_ipv4_bytes());
    let m = spec_version_message(timestamp, nonce);
    assert(Message::spec_encode(m).take(4) =~= spec_mainnet_start());
    assert(Message::spec_encode(spec_getaddr_message()).take(4) =~= spec_mainnet_start());
    assert(Message::spec_encode(spec_verack_message()).take(4) =~= spec_mainnet_start());
}

} // verus!
