//! The `version` message and the service flags that peers advertise.
use vstd::prelude::*;
use vstd::utf8::{decode_utf8, encode_utf8, valid_utf8};

use crate::encode::cursor::Cursor;
use crate::encode::encode::{field, Decodable, Encodable};
use crate::encode::error::Error;
use crate::encode::varint::VarInt;
use crate::network::networkaddr::{NetworkAddr, SpecNetworkAddr};
use crate::utils::text::string_from_utf8;

verus! {

/// Every service flag this library knows:
/// `NODE_NETWORK` (1), `NODE_GETUTXO` (2), `NODE_BLOOM` (4),
/// `NODE_WITNESS` (8) and `NODE_NETWORK_LIMITED` (1024).
pub const SERVICE_KNOWN_BITS: u64 = 1039;

/// The bits of `v` that name known services; the others are dropped.
pub open spec fn spec_known_bits(v: u64) -> u64 {
    v & SERVICE_KNOWN_BITS
}

/// `v` names known services only.
pub open spec fn spec_only_known(v: u64) -> bool {
    v & !SERVICE_KNOWN_BITS == 0
}

/// A set of service flags. Only known flags can be set.
#[derive(Debug, PartialEq, Eq, Clone, Copy)]
pub struct Service {
    bits: u64,
}

impl Service {
    #[verifier::type_invariant]
    closed spec fn inv(self) -> bool {
        spec_only_known(self.bits)
    }

    /// The flags, as their bit field.
    pub closed spec fn spec_bits(self) -> u64 {
        self.bits
    }

    /// No service.
    pub fn empty() -> (s: Service)
        ensures
            s.spec_bits() == 0,
    {
        assert(spec_only_known(0)) by (bit_vector);
        Service { bits: 0 }
    }

    /// `NODE_NETWORK`: the node serves full blocks.
    pub fn network() -> (s: Service)
        ensures
            s.spec_bits() == 1,
    {
        assert(spec_only_known(1)) by (bit_vector);
        Service { bits: 1 }
    }

    /// `NODE_GETUTXO` (BIP 0064).
    pub fn get_utxo() -> (s: Service)
        ensures
            s.spec_bits() == 2,
    {
        assert(spec_only_known(2)) by (bit_vector);
        Service { bits: 2 }
    }

    /// `NODE_BLOOM` (BIP 0111).
    pub fn bloom() -> (s: Service)
        ensures
            s.spec_bits() == 4,
    {
        assert(spec_only_known(4)) by (bit_vector);
        Service { bits: 4 }
    }

    /// `NODE_WITNESS` (BIP 0144).
    pub fn witness() -> (s: Service)
        ensures
            s.spec_bits() == 8,
    {
        assert(spec_only_known(8)) by (bit_vector);
        Service { bits: 8 }
    }

    /// `NODE_NETWORK_LIMITED` (BIP 0159).
    pub fn network_limited() -> (s: Service)
        ensures
            s.spec_bits() == 1024,
    {
        assert(spec_only_known(1024)) by (bit_vector);
        Service { bits: 1024 }
    }

    /// The flags, as their bit field.
    pub fn bits(&self) -> (b: u64)
        ensures
            b == self.spec_bits(),
            spec_only_known(b),
    {
        proof {
            use_type_invariant(self);
        }
        self.bits
    }

    /// The flags of `value`, or `None` when it sets an unknown bit.
    pub fn from_bits(value: u64) -> (r: Option<Service>)
        ensures
            r is Some <==> spec_only_known(value),
            r matches Some(s) ==> s.spec_bits() == value,
    {
        if value & !SERVICE_KNOWN_BITS == 0 {
            Some(Service { bits: value })
        } else {
            None
        }
    }

    /// The known flags of `value`; unknown bits are dropped.
    pub fn from_bits_truncate(value: u64) -> (s: Service)
        ensures
            s.spec_bits() == spec_known_bits(value),
    {
        let bits = value & SERVICE_KNOWN_BITS;
        assert(spec_only_known(value & 1039u64)) by (bit_vector);
        Service { bits: bits }
    }
}

impl DeepView for Service {
    type V = u64;

    open spec fn deep_view(&self) -> u64 {
        self.spec_bits()
    }
}

impl Encodable for Service {
    /// The bit field as a little-endian `u64`.
    open spec fn spec_encode(bits: u64) -> Seq<u8> {
        u64::spec_encode(bits)
    }

    fn encode(&self, w: &mut Vec<u8>) -> (r: Result<(), Error>) {
        match self.bits().encode(w) {
            Ok(_) => Ok(()),
            Err(_) => Err(Error::Service),
        }
    }
}

impl Decodable for Service {
    /// A little-endian `u64` (`Service` when missing) whose unknown bits are
    /// dropped.
    open spec fn spec_decode(data: Seq<u8>, pos: int) -> (Result<u64, Error>, int) {
        let (v, p) = u64::spec_decode(data, pos);
        match v {
            Err(_) => (Err(Error::Service), p),
            Ok(value) => (Ok(spec_known_bits(value)), p),
        }
    }

    fn decode(r: &mut Cursor) -> (res: Result<Service, Error>) {
        let ghost expected = <Service as Decodable>::spec_decode(r.data(), r.pos());
        let value = match u64::decode(r) {
            Ok(v) => v,
            Err(_) => return Err(Error::Service),
        };
        match Service::from_bits(value) {
            Some(strict) => {
                assert(value & 1039u64 == value) by (bit_vector)
                    requires
                        value & !1039u64 == 0,
                ;
                Ok(strict)
            },
            None => Ok(Service::from_bits_truncate(value)),
        }
    }
}

/// The `version` message, which each side sends first on a new connection.
///
/// Below protocol 106 the message stops after `receiver`; below protocol
/// 70001 it has no `relay`.
#[derive(Debug, PartialEq, Eq)]
pub struct Version {
    /// The protocol version of the sender.
    pub version: i32,
    /// The services the sender offers.
    pub services: Service,
    /// The sender's clock, in UNIX seconds.
    pub timestamp: i64,
    /// The address of the node that receives the message.
    pub receiver: NetworkAddr,
    /// The address of the node that sends the message.
    pub sender: NetworkAddr,
    /// A random number that tells a connection to oneself.
    pub nonce: u64,
    /// The software of the sender, such as `/Satoshi:0.9.99/`.
    pub user_agent: String,
    /// The last block the sender has.
    pub start_height: i32,
    /// Whether the sender wants transactions relayed to it (BIP 0037).
    pub relay: bool,
}

/// The model of a [`Version`].
pub struct SpecVersion {
    pub version: i32,
    pub services: u64,
    pub timestamp: i64,
    pub receiver: SpecNetworkAddr,
    pub sender: SpecNetworkAddr,
    pub nonce: u64,
    pub user_agent: Seq<char>,
    pub start_height: i32,
    pub relay: bool,
}

impl DeepView for Version {
    type V = SpecVersion;

    open spec fn deep_view(&self) -> SpecVersion {
        SpecVersion {
            version: self.version,
            services: self.services.deep_view(),
            timestamp: self.timestamp,
            receiver: self.receiver.deep_view(),
            sender: self.sender.deep_view(),
            nonce: self.nonce,
            user_agent: self.user_agent@,
            start_height: self.start_height,
            relay: self.relay,
        }
    }
}

/// The first protocol version whose `version` message carries the sender's
/// address, the nonce, the user agent and the start height.
pub const VERSION_SENDER_FIELDS: i32 = 106;

/// The first protocol version whose `version` message carries `relay`.
pub const VERSION_RELAY_FIELD: i32 = 70001;

/// The user agent field, a `var_str`: the byte count as a [`VarInt`], then
/// the UTF-8 bytes of the text.
pub open spec fn spec_user_agent_field(user_agent: Seq<char>) -> Seq<u8> {
    let bytes = encode_utf8(user_agent);
    VarInt::spec_encode(bytes.len() as u64) + bytes
}

/// The fields a `version` carries from protocol 106 on: the sender's
/// address, the nonce, the user agent and the start height.
pub open spec fn spec_encode_sender_fields(v: SpecVersion) -> Seq<u8> {
    NetworkAddr::spec_encode(v.sender) + u64::spec_encode(v.nonce) + spec_user_agent_field(
        v.user_agent,
    ) + i32::spec_encode(v.start_height)
}

/// The address a `version` below protocol 106 gives for its sender, which
/// it does not carry: no services, the all-zero address, port 0.
pub open spec fn spec_absent_addr() -> SpecNetworkAddr {
    SpecNetworkAddr { services: 0, ip: Seq::new(16, |i: int| 0u8), port: 0 }
}

impl Encodable for Version {
    /// Version, services, timestamp and receiver; from protocol 106 on the
    /// sender, nonce, user agent and start height; from protocol 70001 on
    /// `relay`.
    open spec fn spec_encode(v: SpecVersion) -> Seq<u8> {
        i32::spec_encode(v.version) + Service::spec_encode(v.services) + i64::spec_encode(
            v.timestamp,
        ) + NetworkAddr::spec_encode(v.receiver) + (if v.version >= VERSION_SENDER_FIELDS {
            spec_encode_sender_fields(v)
        } else {
            Seq::empty()
        }) + (if v.version >= VERSION_RELAY_FIELD {
            bool::spec_encode(v.relay)
        } else {
            Seq::empty()
        })
    }

    fn encode(&self, w: &mut Vec<u8>) -> (r: Result<(), Error>) {
        let ghost start = w@;
        let _ = self.version.encode(w);
        let _ = self.services.encode(w);
        let _ = self.timestamp.encode(w);
        let _ = self.receiver.encode(w);
        let ghost base = w@;
        if self.version >= VERSION_SENDER_FIELDS {
            let _ = self.sender.encode(w);
            let _ = self.nonce.encode(w);
            let ghost before_agent = w@;
            let user_agent_bytes = self.user_agent.as_str().as_bytes();
            let _ = VarInt::new(user_agent_bytes.len() as u64).encode(w);
            crate::encode::wire::append_bytes(w, user_agent_bytes);
            proof {
                assert(w@ =~= before_agent + spec_user_agent_field(self.user_agent@));
            }
            let _ = self.start_height.encode(w);
            proof {
                assert(w@ =~= base + spec_encode_sender_fields(self.deep_view()));
            }
        } else {
            assert(w@ =~= base + Seq::<u8>::empty());
        }
        let ghost tail = w@;
        if self.version >= VERSION_RELAY_FIELD {
            let _ = self.relay.encode(w);
        } else {
            assert(w@ =~= tail + Seq::<u8>::empty());
        }
        proof {
            assert(w@ =~= start + Self::spec_encode(self.deep_view()));
        }
        Ok(())
    }
}

/// Decoding the user agent at `pos`: a [`VarInt`] length
/// (`VersionUserAgentLen` when it cannot be read), that many bytes
/// (`VersionUserAgent` when they run out), which must be UTF-8
/// (`VersionUserAgentDecode` otherwise).
pub open spec fn spec_decode_user_agent(data: Seq<u8>, pos: int) -> (Result<Seq<char>, Error>, int) {
    let (len, p) = VarInt::spec_decode(data, pos);
    match len {
        Err(_) => (Err(Error::VersionUserAgentLen), p),
        Ok(n) => match field(data, p, n as int) {
            None => (Err(Error::VersionUserAgent), p),
            Some(b) => if valid_utf8(b) {
                (Ok(decode_utf8(b)), p + n)
            } else {
                (Err(Error::VersionUserAgentDecode), p + n)
            },
        },
    }
}

/// Reads the user agent of a `version` message.
fn decode_user_agent(r: &mut Cursor) -> (res: Result<String, Error>)
    ensures
        final(r).data() == old(r).data(),
        match res {
            Ok(s) => spec_decode_user_agent(old(r).data(), old(r).pos()) == (
                Ok::<Seq<char>, Error>(s@),
                final(r).pos(),
            ),
            Err(e) => spec_decode_user_agent(old(r).data(), old(r).pos()) == (
                Err::<Seq<char>, Error>(e),
                final(r).pos(),
            ),
        },
{
    let len = match VarInt::decode(r) {
        Ok(l) => l.0,
        Err(_) => return Err(Error::VersionUserAgentLen),
    };
    if (r.remaining() as u64) < len {
        return Err(Error::VersionUserAgent);
    }
    let bytes = r.take(len as usize);
    match string_from_utf8(bytes) {
        Some(s) => Ok(s),
        None => Err(Error::VersionUserAgentDecode),
    }
}

/// The fields from protocol 106 on, read in order; a failure in a field is
/// reported by the `Version...` error of that field.
pub open spec fn spec_decode_sender_fields(data: Seq<u8>, pos: int) -> (
    Result<(SpecNetworkAddr, u64, Seq<char>, i32), Error>,
    int,
) {
    let (sender, p1) = NetworkAddr::spec_decode(data, pos);
    let (nonce, p2) = u64::spec_decode(data, p1);
    let (user_agent, p3) = spec_decode_user_agent(data, p2);
    let (start_height, p4) = i32::spec_decode(data, p3);
    if sender is Err {
        (Err(Error::VersionSender), p1)
    } else if nonce is Err {
        (Err(Error::VersionNonce), p2)
    } else if user_agent is Err {
        (Err(user_agent->Err_0), p3)
    } else if start_height is Err {
        (Err(Error::VersionStartHeight), p4)
    } else {
        (Ok((sender->Ok_0, nonce->Ok_0, user_agent->Ok_0, start_height->Ok_0)), p4)
    }
}

/// Reads the fields that protocol 106 added.
fn decode_sender_fields(r: &mut Cursor) -> (res: Result<(NetworkAddr, u64, String, i32), Error>)
    ensures
        final(r).data() == old(r).data(),
        final(r).pos() == spec_decode_sender_fields(old(r).data(), old(r).pos()).1,
        match res {
            Ok((a, n, u, h)) => spec_decode_sender_fields(old(r).data(), old(r).pos()).0 == Ok::<
                (SpecNetworkAddr, u64, Seq<char>, i32),
                Error,
            >((a.deep_view(), n, u@, h)),
            Err(e) => spec_decode_sender_fields(old(r).data(), old(r).pos()).0 == Err::<
                (SpecNetworkAddr, u64, Seq<char>, i32),
                Error,
            >(e),
        },
{
    let sender = match NetworkAddr::decode(r) {
        Ok(v) => v,
        Err(_) => return Err(Error::VersionSender),
    };
    let nonce = match u64::decode(r) {
        Ok(v) => v,
        Err(_) => return Err(Error::VersionNonce),
    };
    let user_agent = match decode_user_agent(r) {
        Ok(v) => v,
        Err(e) => return Err(e),
    };
    let start_height = match i32::decode(r) {
        Ok(v) => v,
        Err(_) => return Err(Error::VersionStartHeight),
    };
    Ok((sender, nonce, user_agent, start_height))
}

impl Decodable for Version {
    /// Version, services, timestamp and receiver; from protocol 106 on the
    /// sender, nonce, user agent and start height (below it: the absent
    /// address, nonce 0, an empty user agent and height 0); from protocol
    /// 70001 on `relay` (below it `true`, as BIP 0037 reads a missing flag).
    /// A failure in a field is reported by the `Version...` error of that
    /// field.
    open spec fn spec_decode(data: Seq<u8>, pos: int) -> (Result<SpecVersion, Error>, int) {
        let (version, p1) = i32::spec_decode(data, pos);
        let (services, p2) = Service::spec_decode(data, p1);
        let (timestamp, p3) = i64::spec_decode(data, p2);
        let (receiver, p4) = NetworkAddr::spec_decode(data, p3);
        if version is Err {
            (Err(Error::VersionVersion), p1)
        } else if services is Err {
            (Err(Error::VersionServices), p2)
        } else if timestamp is Err {
            (Err(Error::VersionTimestamp), p3)
        } else if receiver is Err {
            (Err(Error::VersionReceiver), p4)
        } else {
            let ver = version->Ok_0;
            let (fields, p8) = if ver >= VERSION_SENDER_FIELDS {
                spec_decode_sender_fields(data, p4)
            } else {
                (
                    Ok::<(SpecNetworkAddr, u64, Seq<char>, i32), Error>(
                        (spec_absent_addr(), 0u64, Seq::<char>::empty(), 0i32),
                    ),
                    p4,
                )
            };
            let (relay, p9) = if ver >= VERSION_RELAY_FIELD {
                bool::spec_decode(data, p8)
            } else {
                (Ok::<bool, Error>(true), p8)
            };
            if fields is Err {
                (Err(fields->Err_0), p8)
            } else if relay is Err {
                (Err(Error::VersionRelay), p9)
            } else {
                let f = fields->Ok_0;
                (
                    Ok(
                        SpecVersion {
                            version: ver,
                            services: services->Ok_0,
                            timestamp: timestamp->Ok_0,
                            receiver: receiver->Ok_0,
                            sender: f.0,
                            nonce: f.1,
                            user_agent: f.2,
                            start_height: f.3,
                            relay: relay->Ok_0,
                        },
                    ),
                    p9,
                )
            }
        }
    }

    fn decode(r: &mut Cursor) -> (res: Result<Version, Error>) {
        let ghost expected = <Version as Decodable>::spec_decode(r.data(), r.pos());
        let version = match i32::decode(r) {
            Ok(v) => v,
            Err(_) => return Err(Error::VersionVersion),
        };
        let services = match Service::decode(r) {
            Ok(v) => v,
            Err(_) => return Err(Error::VersionServices),
        };
        let timestamp = match i64::decode(r) {
            Ok(v) => v,
            Err(_) => return Err(Error::VersionTimestamp),
        };
        let receiver = match NetworkAddr::decode(r) {
            Ok(v) => v,
            Err(_) => return Err(Error::VersionReceiver),
        };
        let (sender, nonce, user_agent, start_height) = if version >= VERSION_SENDER_FIELDS {
            match decode_sender_fields(r) {
                Ok(f) => f,
                Err(e) => return Err(e),
            }
        } else {
            let zeros: [u8; 16] = [0u8, 0u8, 0u8, 0u8, 0u8, 0u8, 0u8, 0u8, 0u8, 0u8, 0u8, 0u8, 0u8, 0u8, 0u8, 0u8];
            let absent = NetworkAddr { services: Service::empty(), ip: zeros, port: 0 };
            assert(absent.deep_view().ip =~= spec_absent_addr().ip);
            (absent, 0u64, String::new(), 0i32)
        };
        let relay = if version >= VERSION_RELAY_FIELD {
            match bool::decode(r) {
                Ok(v) => v,
                Err(_) => return Err(Error::VersionRelay),
            }
        } else {
            true
        };
        Ok(
            Version {
                version: version,
                services: services,
                timestamp: timestamp,
                receiver: receiver,
                sender: sender,
                nonce: nonce,
                user_agent: user_agent,
                start_height: start_height,
                relay: relay,
            },
        )
    }
}

} // verus!
