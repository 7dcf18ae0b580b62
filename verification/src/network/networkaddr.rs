//! Network addresses, as the `version` and `addr` messages carry them.
use vstd::prelude::*;

use crate::encode::cursor::Cursor;
use crate::encode::encode::{Decodable, Encodable, NetworkDecodable, NetworkEncodable};
use crate::encode::error::Error;
use crate::encode::list::{decode_counted, encode_counted, spec_decode_counted, spec_encode_counted};
use crate::network::version::Service;

verus! {

/// The number of bytes of an address on the wire.
pub const IP_LEN: usize = 16;

/// The IPv4-mapped IPv6 address of `octets`: ten zero bytes, two `0xFF`
/// bytes, then the four octets.
pub open spec fn spec_ipv4_mapped(octets: Seq<u8>) -> Seq<u8> {
    Seq::new(10, |i: int| 0u8) + seq![0xFFu8, 0xFFu8] + octets
}

/// A node's address: its services, its IPv6 address (IPv4 addresses are
/// written IPv4-mapped) and its port.
///
/// On the wire: the services as a little-endian `u64`, the sixteen address
/// bytes in network order, and the port as a big-endian `u16`.
#[derive(Debug, PartialEq, Eq, Clone, Copy)]
pub struct NetworkAddr {
    pub services: Service,
    pub ip: [u8; 16],
    pub port: u16,
}

/// The model of a [`NetworkAddr`].
pub struct SpecNetworkAddr {
    pub services: u64,
    pub ip: Seq<u8>,
    pub port: u16,
}

impl DeepView for NetworkAddr {
    type V = SpecNetworkAddr;

    open spec fn deep_view(&self) -> SpecNetworkAddr {
        SpecNetworkAddr {
            services: self.services.deep_view(),
            ip: self.ip.deep_view(),
            port: self.port,
        }
    }
}

impl NetworkAddr {
    /// The sixteen address bytes of the IPv4 address `octets`, IPv4-mapped.
    pub fn ipv4_mapped(octets: [u8; 4]) -> (ip: [u8; 16])
        ensures
            ip.deep_view() == spec_ipv4_mapped(octets.deep_view()),
    {
        let mut ip: [u8; 16] = [0u8; 16];
        ip[10] = 0xFF;
        ip[11] = 0xFF;
        ip[12] = octets[0];
        ip[13] = octets[1];
        ip[14] = octets[2];
        ip[15] = octets[3];
        assert(ip.deep_view() =~= spec_ipv4_mapped(octets.deep_view()));
        ip
    }
}

impl Encodable for NetworkAddr {
    open spec fn spec_encode(a: SpecNetworkAddr) -> Seq<u8> {
        Service::spec_encode(a.services) + a.ip + u16::spec_encode_network(a.port)
    }

    fn encode(&self, w: &mut Vec<u8>) -> (r: Result<(), Error>) {
        let ghost start = w@;
        let _ = self.services.encode(w);
        let _ = self.ip.encode(w);
        let _ = self.port.encode_network_byte_order(w);
        proof {
            assert(w@ =~= start + Self::spec_encode(self.deep_view()));
        }
        Ok(())
    }
}

impl Decodable for NetworkAddr {
    /// The services (`NetworkAddrServices`), the address (`NetworkAddrIp`)
    /// and the port (`NetworkAddrPort`).
    open spec fn spec_decode(data: Seq<u8>, pos: int) -> (Result<SpecNetworkAddr, Error>, int) {
        let (services, p1) = Service::spec_decode(data, pos);
        let (ip, p2) = <[u8; 16] as Decodable>::spec_decode(data, p1);
        let (port, p3) = u16::spec_decode_network(data, p2);
        if services is Err {
            (Err(Error::NetworkAddrServices), p1)
        } else if ip is Err {
            (Err(Error::NetworkAddrIp), p2)
        } else if port is Err {
            (Err(Error::NetworkAddrPort), p3)
        } else {
            (
                Ok(SpecNetworkAddr { services: services->Ok_0, ip: ip->Ok_0, port: port->Ok_0 }),
                p3,
            )
        }
    }

    fn decode(r: &mut Cursor) -> (res: Result<NetworkAddr, Error>) {
        let ghost expected = <NetworkAddr as Decodable>::spec_decode(r.data(), r.pos());
        let services = match Service::decode(r) {
            Ok(s) => s,
            Err(_) => return Err(Error::NetworkAddrServices),
        };
        let ip = match <[u8; 16]>::decode(r) {
            Ok(ip) => ip,
            Err(_) => return Err(Error::NetworkAddrIp),
        };
        let port = match u16::decode_network_byte_order(r) {
            Ok(p) => p,
            Err(_) => return Err(Error::NetworkAddrPort),
        };
        Ok(NetworkAddr { services: services, ip: ip, port: port })
    }
}

/// An address with the time it was last seen, as the `addr` message lists it.
#[derive(Debug, PartialEq, Eq, Clone, Copy)]
pub struct TimedNetworkAddr {
    /// UNIX seconds.
    pub time: u32,
    pub addr: NetworkAddr,
}

/// The model of a [`TimedNetworkAddr`].
pub struct SpecTimedNetworkAddr {
    pub time: u32,
    pub addr: SpecNetworkAddr,
}

impl DeepView for TimedNetworkAddr {
    type V = SpecTimedNetworkAddr;

    open spec fn deep_view(&self) -> SpecTimedNetworkAddr {
        SpecTimedNetworkAddr { time: self.time, addr: self.addr.deep_view() }
    }
}

impl Encodable for TimedNetworkAddr {
    /// The time as a little-endian `u32`, then the address.
    open spec fn spec_encode(a: SpecTimedNetworkAddr) -> Seq<u8> {
        u32::spec_encode(a.time) + NetworkAddr::spec_encode(a.addr)
    }

    fn encode(&self, w: &mut Vec<u8>) -> (r: Result<(), Error>) {
        let ghost start = w@;
        let _ = self.time.encode(w);
        let _ = self.addr.encode(w);
        proof {
            assert(w@ =~= start + Self::spec_encode(self.deep_view()));
        }
        Ok(())
    }
}

impl Decodable for TimedNetworkAddr {
    /// The time (`TimedNetworkAddrTime` when missing), then the address,
    /// whose own errors are passed on.
    open spec fn spec_decode(data: Seq<u8>, pos: int) -> (Result<SpecTimedNetworkAddr, Error>, int) {
        let (time, p1) = u32::spec_decode(data, pos);
        let (addr, p2) = NetworkAddr::spec_decode(data, p1);
        if time is Err {
            (Err(Error::TimedNetworkAddrTime), p1)
        } else if addr is Err {
            (Err(addr->Err_0), p2)
        } else {
            (Ok(SpecTimedNetworkAddr { time: time->Ok_0, addr: addr->Ok_0 }), p2)
        }
    }

    fn decode(r: &mut Cursor) -> (res: Result<TimedNetworkAddr, Error>) {
        let ghost expected = <TimedNetworkAddr as Decodable>::spec_decode(r.data(), r.pos());
        let time = match u32::decode(r) {
            Ok(t) => t,
            Err(_) => return Err(Error::TimedNetworkAddrTime),
        };
        let addr = match NetworkAddr::decode(r) {
            Ok(a) => a,
            Err(e) => return Err(e),
        };
        Ok(TimedNetworkAddr { time: time, addr: addr })
    }
}

impl Encodable for Vec<TimedNetworkAddr> {
    /// The number of addresses, then the addresses.
    open spec fn spec_encode(addrs: Seq<SpecTimedNetworkAddr>) -> Seq<u8> {
        spec_encode_counted::<TimedNetworkAddr>(addrs)
    }

    fn encode(&self, w: &mut Vec<u8>) -> (r: Result<(), Error>) {
        encode_counted(self, w)
    }
}

impl Decodable for Vec<TimedNetworkAddr> {
    /// The number of addresses (`TimedNetworkCount` when missing), then the
    /// addresses.
    open spec fn spec_decode(data: Seq<u8>, pos: int) -> (Result<Seq<SpecTimedNetworkAddr>, Error>, int) {
        spec_decode_counted::<TimedNetworkAddr>(data, pos, Error::TimedNetworkCount)
    }

    fn decode(r: &mut Cursor) -> (res: Result<Vec<TimedNetworkAddr>, Error>) {
        let ghost expected = <Vec<TimedNetworkAddr> as Decodable>::spec_decode(r.data(), r.pos());
        decode_counted::<TimedNetworkAddr>(r, Error::TimedNetworkCount)
    }
}

} // verus!
