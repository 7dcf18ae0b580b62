use rbtc::encode::cursor::Cursor;
use rbtc::encode::encode::{Decodable, Encodable};
use rbtc::encode::error::Error;
use rbtc::network::addr::Addr;
use rbtc::network::command::{Command, CommandString};
use rbtc::network::getaddr::GetAddr;
use rbtc::network::message::{Magic, Message, Payload};
use rbtc::network::networkaddr::{NetworkAddr, TimedNetworkAddr};
use rbtc::network::ping::Ping;
use rbtc::network::pong::Pong;
use rbtc::network::verack::VerAck;
use rbtc::network::version::{Service, Version};
use rbtc::utils::hexdump;

#[test]
fn when_encode_10_0_0_1_then_same_as_hexdump() {
    let dump = "
00000000   01 00 00 00 00 00 00 00  00 00 00 00 00 00 00 00   ................
00000010   00 00 FF FF 0A 00 00 01  20 8D                     ..........
";
    let original: Vec<u8> = hexdump::decode(dump);
    let encodable = NetworkAddr {
        services: Service::network(),
        ip: NetworkAddr::ipv4_mapped([10, 0, 0, 1]),
        port: 8333,
    };
    let mut data: Vec<u8> = Vec::new();
    let result = encodable.encode(&mut data);
    assert!(result.is_ok());
    assert_eq!(original, data);
}

#[test]
fn when_decode_10_0_0_1_then_same_as_hexdump() {
    let dump = "
00000000   01 00 00 00 00 00 00 00  00 00 00 00 00 00 00 00   ................
00000010   00 00 FF FF 0A 00 00 01  20 8D                     ..........
";
    let data: Vec<u8> = hexdump::decode(dump);
    let expected = NetworkAddr {
        services: Service::network(),
        ip: NetworkAddr::ipv4_mapped([10, 0, 0, 1]),
        port: 8333,
    };
    let mut c = Cursor::new(&data);
    let result = NetworkAddr::decode(&mut c);
    assert_eq!(Ok(expected), result);
    assert_eq!(c.position(), 26);
}

#[test]
fn when_encode_addr_0_0_0_0_port_0_then_same_as_hexdump() {
    let dump = "
00000000   01 00 00 00 00 00 00 00  00 00 00 00 00 00 00 00   ................
00000010   00 00 FF FF 00 00 00 00  00 00                     ..........
";
    let original: Vec<u8> = hexdump::decode(dump);
    let encodable = NetworkAddr {
        services: Service::network(),
        ip: NetworkAddr::ipv4_mapped([0, 0, 0, 0]),
        port: 0,
    };
    let mut data: Vec<u8> = Vec::new();
    assert!(encodable.encode(&mut data).is_ok());
    assert_eq!(original, data);
}

#[test]
fn when_encode_addr_ipv6_port_8333_then_same_as_hexdump() {
    let dump = "
00000000   01 00 00 00 00 00 00 00  FD 87 D8 7E EB 43 64 F2   ................
00000010   2C F5 4D CA 59 41 2D B7  20 8D                     ..........
";
    let original: Vec<u8> = hexdump::decode(dump);
    let encodable = NetworkAddr {
        services: Service::network(),
        ip: [0xFD, 0x87, 0xD8, 0x7E, 0xEB, 0x43, 0x64, 0xF2, 0x2C, 0xF5, 0x4D, 0xCA, 0x59, 0x41, 0x2D, 0xB7],
        port: 8333,
    };
    let mut data: Vec<u8> = Vec::new();
    assert!(encodable.encode(&mut data).is_ok());
    assert_eq!(original, data);
}

#[test]
fn when_decode_network_addr_too_short_then_errors_name_the_field() {
    let data: Vec<u8> = vec![1, 0, 0, 0];
    let mut c = Cursor::new(&data);
    assert_eq!(NetworkAddr::decode(&mut c), Err(Error::NetworkAddrServices));

    let data: Vec<u8> = vec![0; 20];
    let mut c = Cursor::new(&data);
    assert_eq!(NetworkAddr::decode(&mut c), Err(Error::NetworkAddrIp));

    let data: Vec<u8> = vec![0; 25];
    let mut c = Cursor::new(&data);
    assert_eq!(NetworkAddr::decode(&mut c), Err(Error::NetworkAddrPort));

    let data: Vec<u8> = vec![0; 3];
    let mut c = Cursor::new(&data);
    assert_eq!(TimedNetworkAddr::decode(&mut c), Err(Error::TimedNetworkAddrTime));
}

#[test]
fn version_message_test() {
    let dump = "
00000000   72 11 01 00 01 00 00 00  00 00 00 00 e6 e0 84 53   ver.service.time
00000000   00 00 00 00 01 00 00 00  00 00 00 00 00 00 00 00   ................
00000000   00 00 00 00 00 00 ff ff  00 00 00 00 00 00 01 00   ................
00000000   00 00 00 00 00 00 fd 87  d8 7e eb 43 64 f2 2c f5   ................
00000000   4d ca 59 41 2d b7 20 8d  47 d9 20 cf fc e8 3e e8   .........nonce..
00000000   10 2f 53 61 74 6f 73 68  69 3a 30 2e 39 2e 39 39   .useragent......
00000000   2f 2c 9f 04 00 01                                  height.relay.   
";
    let original: Vec<u8> = hexdump::decode(dump);
    let version = Version {
        version: 70002,
        services: Service::network(),
        timestamp: 1401217254,
        receiver: NetworkAddr {
            services: Service::network(),
            ip: NetworkAddr::ipv4_mapped([0, 0, 0, 0]),
            port: 0,
        },
        sender: NetworkAddr {
            services: Service::network(),
            ip: [0xfd, 0x87, 0xd8, 0x7e, 0xeb, 0x43, 0x64, 0xf2, 0x2c, 0xf5, 0x4d, 0xca, 0x59, 0x41, 0x2d, 0xb7],
            port: 8333,
        },
        nonce: 0xE83EE8FCCF20D947,
        user_agent: "/Satoshi:0.9.99/".to_string(),
        start_height: 0x00049F2C,
        relay: true,
    };
    let mut result: Vec<u8> = Vec::new();
    assert!(version.encode(&mut result).is_ok());
    assert_eq!(original, result);

    let mut c = Cursor::new(&original);
    assert_eq!(Version::decode(&mut c), Ok(version));
}

#[test]
fn when_version_user_agent_is_not_utf8_then_user_agent_decode_error() {
    let mut data: Vec<u8> = vec![0; 80];
    data[0..4].copy_from_slice(&70002i32.to_le_bytes());
    data.push(2);
    data.push(0xFF);
    data.push(0xFE);
    let mut c = Cursor::new(&data);
    assert_eq!(Version::decode(&mut c), Err(Error::VersionUserAgentDecode));

    let mut data: Vec<u8> = vec![0; 80];
    data[0..4].copy_from_slice(&70002i32.to_le_bytes());
    data.push(3);
    data.push(b'a');
    let mut c = Cursor::new(&data);
    assert_eq!(Version::decode(&mut c), Err(Error::VersionUserAgent));

    let mut data: Vec<u8> = vec![0; 80];
    data[0..4].copy_from_slice(&70002i32.to_le_bytes());
    let mut c = Cursor::new(&data);
    assert_eq!(Version::decode(&mut c), Err(Error::VersionUserAgentLen));

    let data: Vec<u8> = vec![0; 2];
    let mut c = Cursor::new(&data);
    assert_eq!(Version::decode(&mut c), Err(Error::VersionVersion));
}

#[test]
fn when_services_hold_unknown_bits_then_they_are_dropped() {
    assert_eq!(Service::from_bits(1037).map(|s| s.bits()), Some(1037));
    assert!(Service::from_bits(16).is_none());
    assert_eq!(Service::from_bits_truncate(0xFFFF).bits(), 1039);
    let data: Vec<u8> = vec![0xFF, 0xFF, 0, 0, 0, 0, 0, 0];
    let mut c = Cursor::new(&data);
    assert_eq!(Service::decode(&mut c).map(|s| s.bits()), Ok(1039));
    assert_eq!(Service::get_utxo().bits() | Service::bloom().bits() | Service::witness().bits(), 14);
    assert_eq!(Service::network_limited().bits(), 1024);
    assert_eq!(Service::empty().bits(), 0);
}

#[test]
fn when_checksum_of_empty_payload_then_known_value() {
    assert_eq!(Message::checksum(&Vec::new()), Ok([0x5D, 0xF6, 0xE0, 0xE2]));
    assert_eq!(Message::checksum(&vec![0x00]), Ok([0x14, 0x06, 0xe0, 0x58]));
}

#[test]
fn when_payload_from_body_then_checksum_and_command_are_checked() {
    let name = CommandString("ping".to_string());
    let body: Vec<u8> = vec![1, 0, 0, 0, 0, 0, 0, 0];
    assert_eq!(
        Payload::from_body(&name, [1, 2, 3, 4], [1, 2, 3, 4], &body),
        Ok(Payload::Ping(Ping { nonce: 1 }))
    );
    assert_eq!(
        Payload::from_body(&name, [1, 2, 3, 4], [1, 2, 3, 5], &body),
        Err(Error::PayloadChecksumInvalid)
    );
    let unknown = CommandString("tx".to_string());
    assert_eq!(
        Payload::from_body(&unknown, [0; 4], [0; 4], &body),
        Err(Error::CommandFromStr)
    );
    assert_eq!(
        Payload::decode_body(Command::Pong, &vec![1, 2]),
        Err(Error::PongNonce)
    );
}

#[test]
fn when_encode_then_decode_each_payload_then_same() {
    let payloads = vec![
        Payload::Ping(Ping { nonce: 42 }),
        Payload::Pong(Pong { nonce: 7 }),
        Payload::VerAck(VerAck {}),
        Payload::GetAddr(GetAddr {}),
        Payload::Addr(Addr {
            addrs: vec![TimedNetworkAddr {
                time: 1292899810,
                addr: NetworkAddr {
                    services: Service::network(),
                    ip: NetworkAddr::ipv4_mapped([10, 0, 0, 1]),
                    port: 8333,
                },
            }],
        }),
    ];
    for payload in payloads {
        let message = Message { magic: Magic::TestNet, payload };
        let mut data: Vec<u8> = Vec::new();
        assert!(message.encode(&mut data).is_ok());
        let mut c = Cursor::new(&data);
        assert_eq!(Message::decode(&mut c), Ok(message));
        assert_eq!(c.position() as usize, data.len());
    }
}

#[test]
fn when_addr_message_then_same_as_documented_dump() {
    let dump = "
00000000   F9 BE B4 D9 61 64 64 72  00 00 00 00 00 00 00 00   ....addr........
00000010   1F 00 00 00 ED 52 39 9B  01 E2 15 10 4D 01 00 00   .....R9.....M...
00000020   00 00 00 00 00 00 00 00  00 00 00 00 00 00 00 FF   ................
00000030   FF 0A 00 00 01 20 8D                               ..... .
";
    let data: Vec<u8> = hexdump::decode(dump);
    let mut c = Cursor::new(&data);
    let message = Message::decode(&mut c).unwrap();
    assert_eq!(message.magic, Magic::MainNet);
    let expected = Payload::Addr(Addr {
        addrs: vec![TimedNetworkAddr {
            time: 0x4D1015E2,
            addr: NetworkAddr {
                services: Service::network(),
                ip: NetworkAddr::ipv4_mapped([10, 0, 0, 1]),
                port: 8333,
            },
        }],
    });
    assert_eq!(message.payload, expected);
}

#[test]
fn when_message_header_is_cut_then_payload_errors_name_the_field() {
    let mut data: Vec<u8> = vec![0xF9, 0xBE, 0xB4, 0xD9];
    data.extend_from_slice(b"ping\0\0\0\0\0\0\0\0");
    let mut c = Cursor::new(&data);
    assert_eq!(Message::decode(&mut c), Err(Error::PayloadLen));

    data.extend_from_slice(&[0xFF, 0, 0, 0]);
    let mut c = Cursor::new(&data);
    assert_eq!(Message::decode(&mut c), Err(Error::PayloadTooSmall));

    let mut short = data.clone();
    short[16] = 8;
    let mut c = Cursor::new(&short);
    assert_eq!(Message::decode(&mut c), Err(Error::PayloadChecksum));

    short.extend_from_slice(&[0, 0, 0, 0, 1, 2]);
    let mut c = Cursor::new(&short);
    assert_eq!(Message::decode(&mut c), Err(Error::PayloadData));

    short.extend_from_slice(&[3, 4, 5, 6, 7, 8]);
    let mut c = Cursor::new(&short);
    assert_eq!(Message::decode(&mut c), Err(Error::PayloadChecksumInvalid));

    let data: Vec<u8> = vec![0xF9, 0xBE, 0xB4];
    let mut c = Cursor::new(&data);
    assert_eq!(Message::decode(&mut c), Err(Error::MessageMagic));

    let data: Vec<u8> = vec![1, 2, 3, 4];
    let mut c = Cursor::new(&data);
    assert_eq!(Message::decode(&mut c), Err(Error::Magic));

    let data: Vec<u8> = vec![0xF9, 0xBE, 0xB4, 0xD9, 0xFF];
    let mut c = Cursor::new(&data);
    assert_eq!(Message::decode(&mut c), Err(Error::PayloadCommandString));
}

#[test]
fn when_message_list_is_empty_then_message_empty() {
    let data: Vec<u8> = Vec::new();
    let mut c = Cursor::new(&data);
    assert_eq!(<Vec<Message>>::decode(&mut c), Err(Error::MessageEmpty));

    let data: Vec<u8> = vec![1];
    let mut c = Cursor::new(&data);
    c.set_position(1);
    assert_eq!(<Vec<Message>>::decode(&mut c), Err(Error::MessageNotFound));
}

#[test]
fn when_encode_message_list_then_decode_same() {
    let messages = vec![
        Message { magic: Magic::RegTest, payload: Payload::VerAck(VerAck {}) },
        Message { magic: Magic::RegTest, payload: Payload::Ping(Ping { nonce: 3 }) },
    ];
    let mut data: Vec<u8> = Vec::new();
    assert!(messages.encode(&mut data).is_ok());
    let mut c = Cursor::new(&data);
    assert_eq!(<Vec<Message>>::decode(&mut c), Ok(messages));
}

#[test]
fn when_command_names_then_round_trip() {
    let commands = [
        Command::Version, Command::VerAck, Command::GetHeaders, Command::GetAddr, Command::Alert,
        Command::Addr, Command::Ping, Command::Pong, Command::Inv,
    ];
    for command in commands {
        let name = command.to_string();
        assert_eq!(Command::from_str(&name), Ok(command));
        let mut data: Vec<u8> = Vec::new();
        assert!(CommandString(name.clone()).encode(&mut data).is_ok());
        assert_eq!(data.len(), 12);
        let mut c = Cursor::new(&data);
        assert_eq!(CommandString::decode(&mut c), Ok(CommandString(name)));
    }
    assert_eq!(Command::from_str("Version"), Err(()));
    assert_eq!(CommandString("VERACK".to_string()).to_command(), Err(()));
    let mut data: Vec<u8> = Vec::new();
    assert!(CommandString("VERACK".to_string()).encode(&mut data).is_ok());
    assert_eq!(&data[..6], b"verack");
}

#[test]
fn when_magic_then_wire_is_reversed() {
    let mut data: Vec<u8> = Vec::new();
    assert!(Magic::TestNet.encode(&mut data).is_ok());
    assert_eq!(data, vec![0x0B, 0x11, 0x09, 0x07]);
    assert_eq!(Magic::RegTest.value(), [0xDA, 0xB5, 0xBF, 0xFA]);
    let mut c = Cursor::new(&data);
    assert_eq!(Magic::decode(&mut c), Ok(Magic::TestNet));
}

#[test]
fn when_payload_to_command_then_names_match() {
    let payload = Payload::GetAddr(GetAddr {});
    assert_eq!(payload.to_command(), Command::GetAddr);
    assert_eq!(payload.to_commandstring(), CommandString("getaddr".to_string()));
}

fn sample_version(version: i32, user_agent: String, relay: bool) -> Version {
    Version {
        version: version,
        services: Service::network(),
        timestamp: 1401217254,
        receiver: NetworkAddr { services: Service::network(), ip: NetworkAddr::ipv4_mapped([0, 0, 0, 0]), port: 0 },
        sender: NetworkAddr { services: Service::network(), ip: NetworkAddr::ipv4_mapped([10, 0, 0, 1]), port: 8333 },
        nonce: 7,
        user_agent: user_agent,
        start_height: 5,
        relay: relay,
    }
}

#[test]
fn when_user_agent_has_253_bytes_then_its_length_is_a_varint() {
    let agent: String = std::iter::repeat('a').take(253).collect();
    let v = sample_version(70002, agent.clone(), false);
    let mut w: Vec<u8> = Vec::new();
    assert_eq!(v.encode(&mut w), Ok(()));
    assert_eq!(w[80..83].to_vec(), vec![0xFD, 0xFD, 0x00]);
    assert_eq!(w[83..336].to_vec(), agent.as_bytes().to_vec());
    assert_eq!(w.len(), 336 + 4 + 1);
    let mut c = Cursor::new(&w);
    assert_eq!(Version::decode(&mut c), Ok(v));
    assert_eq!(c.position() as usize, w.len());
}

#[test]
fn when_version_below_70001_then_no_relay_byte() {
    let v = sample_version(60002, "/old/".to_string(), true);
    let mut w: Vec<u8> = Vec::new();
    assert_eq!(v.encode(&mut w), Ok(()));
    assert_eq!(w.len(), 80 + 1 + 5 + 4);
    let mut c = Cursor::new(&w);
    let back = Version::decode(&mut c).unwrap();
    assert_eq!(back.version, 60002);
    assert!(back.relay);
    assert_eq!(back, v);
    assert_eq!(c.position() as usize, w.len());
}

#[test]
fn when_version_below_106_then_it_stops_after_the_receiver() {
    let v = sample_version(105, "/ignored/".to_string(), false);
    let mut w: Vec<u8> = Vec::new();
    assert_eq!(v.encode(&mut w), Ok(()));
    assert_eq!(w.len(), 4 + 8 + 8 + 26);
    let mut c = Cursor::new(&w);
    let back = Version::decode(&mut c).unwrap();
    assert_eq!(c.position(), 46);
    assert_eq!(back.version, 105);
    assert_eq!(back.nonce, 0);
    assert_eq!(back.user_agent, "");
    assert_eq!(back.start_height, 0);
    assert!(back.relay);
    assert_eq!(back.sender, NetworkAddr { services: Service::empty(), ip: [0u8; 16], port: 0 });
}

#[test]
fn when_command_field_has_bytes_after_its_padding_then_rejected() {
    let field: Vec<u8> = vec![0x76, 0x65, 0x72, 0, 0x61, 0x63, 0x6B, 0, 0, 0, 0, 0];
    let mut c = Cursor::new(&field);
    assert_eq!(CommandString::decode(&mut c), Err(Error::CommandPadding));
    let bytes: Vec<u8> = vec![
        0x76, 0x65, 0x72, 0, 0x61, 0x63, 0x6B, 0, 0, 0, 0, 0, 0, 0, 0, 0, 0x5D, 0xF6, 0xE0, 0xE2,
    ];
    let mut r = Cursor::new(&bytes);
    assert!(Payload::decode(&mut r).is_err());
    let good: Vec<u8> = vec![0x76, 0x65, 0x72, 0x61, 0x63, 0x6B, 0, 0, 0, 0, 0, 0];
    let mut g = Cursor::new(&good);
    assert_eq!(CommandString::decode(&mut g).unwrap().0, "verack");
}

#[test]
fn when_command_name_has_non_ascii_capitals_then_they_are_lowercased() {
    let mut w: Vec<u8> = Vec::new();
    assert_eq!(CommandString("ÀB".to_string()).encode(&mut w), Ok(()));
    assert_eq!(w, vec![0xC3, 0xA0, 0x62, 0, 0, 0, 0, 0, 0, 0, 0, 0]);
    let mut w: Vec<u8> = Vec::new();
    assert_eq!(CommandString("VerAck".to_string()).encode(&mut w), Ok(()));
    assert_eq!(w, b"verack\0\0\0\0\0\0".to_vec());
}
