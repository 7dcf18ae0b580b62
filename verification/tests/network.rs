use rbtc::encode::cursor::Cursor;
use rbtc::encode::encode::{Decodable, Encodable};
use rbtc::encode::error::Error;
use rbtc::network::addr::Addr;
use rbtc::network::alert::Alert;
use rbtc::network::command::CommandString;
use rbtc::network::getaddr::GetAddr;
use rbtc::network::getheaders;
use rbtc::network::getheaders::GetHeaders;
use rbtc::network::inv::Inv;
use rbtc::network::message::{Magic, Message, Payload};
use rbtc::network::networkaddr::{NetworkAddr, TimedNetworkAddr};
use rbtc::network::ping::Ping;
use rbtc::network::verack::VerAck;
use rbtc::network::version::{Service, Version};
use rbtc::utils::hexdump;
use rbtc::utils::sha256::Sha256;

#[test]
fn when_encode_addr_then_nothing_to_encode() {

    let addrs : Vec<TimedNetworkAddr> = Vec::new();
    let message = Addr {
        addrs: addrs
    };        
    
    let mut data : Vec<u8> = Vec::new();
    let result = message.encode(&mut data);
    assert!(result.is_ok());
    assert_eq!(1, data.len())
}

#[test]
fn when_decode_addr_then_nothing_to_encode() {

    let data : Vec<u8> = vec![ 0 ];
    let mut read = Cursor::new(&data);
    let result = Addr::decode(&mut read);

    let addrs : Vec<TimedNetworkAddr> = Vec::new();
    let expected = Addr {
        addrs: addrs
    };

    assert!(result.is_ok());
    assert_eq!(expected, result.unwrap());
}

#[test]
fn when_encode_alert_then_nothing_to_encode() {

    let message = Alert {
        data: Vec::new()
    };
    let mut data : Vec<u8> = Vec::new();

    let result = message.encode(&mut data);
    assert!(result.is_ok());
    assert_eq!(1, data.len())
}

#[test]
fn when_decode_alert_then_nothing_to_encode() {

    let data : Vec<u8> = vec![ 0x0 ];
    let mut read = Cursor::new(&data);
    let result = Alert::decode(&mut read);

    let expected = Alert {
        data: Vec::new()
    };

    assert!(result.is_ok());
    assert_eq!(expected, result.unwrap());
}

#[test]
fn when_command_getaddr_then_sucess() {
    let dump = "
00000000   67 65 74 61 64 64 72 00  00 00 00 00               getaddr.......
";

    // This message is from a satoshi node, morning of May 27 2014
    let original : Vec<u8> = hexdump::decode(dump);
    let mut hex = Cursor::new(&original);

    let decode = CommandString::decode(&mut hex);
    assert!(decode.is_ok());

    let result = decode.unwrap();

    let expected = CommandString("getaddr".to_string());

    assert_eq!(expected, result);
}

#[test]
fn when_command_version_then_sucess() {
    let dump = "
00000000   76 65 72 73 69 6f 6e 00  00 00 00 00               version......
";

    // This message is from a satoshi node, morning of May 27 2014
    let original : Vec<u8> = hexdump::decode(dump);
    let mut hex = Cursor::new(&original);

    let decode = CommandString::decode(&mut hex);
    assert!(decode.is_ok());

    let result = decode.unwrap();

    let expected = CommandString("version".to_string());

    assert_eq!(expected, result);
}

#[test]
fn when_encode_getaddr_then_nothing_to_encode() {

    let message = GetAddr {};
    let mut data : Vec<u8> = Vec::new();

    let result = message.encode(&mut data);
    assert!(result.is_ok());
    assert_eq!(0, data.len())
}

#[test]
fn when_decode_getaddr_then_nothing_to_encode() {

    let data : Vec<u8> = Vec::new();
    let mut read = Cursor::new(&data);
    let result = GetAddr::decode(&mut read);

    let expected = GetAddr {};

    assert!(result.is_ok());
    assert_eq!(expected, result.unwrap());
}

#[test]
fn when_decode_with_empty_vec_then_fail_parse_error_version() {

    let dump = "
00000000                                                      ................
";

    let data : Vec<u8> = hexdump::decode(dump);
    let mut c = Cursor::new(&data);
    let result = GetHeaders::decode(&mut c);
    assert!(result.is_err());
    assert_eq!(c.position(), 0);

    if let Err(e) = result {
        assert_eq!(e, Error::GetHeadersVersion);
    } else {
        panic!("should have failed");
    }
}

#[test]
fn when_decode_with_1_vec_then_fail_parse_error_version() {

    let dump = "
00000000   01                                                 ................
";

    let data : Vec<u8> = hexdump::decode(dump);
    let mut c = Cursor::new(&data);
    let result = GetHeaders::decode(&mut c);
    assert!(result.is_err());
    assert_eq!(c.position(), 0);

    if let Err(e) = result {
        assert_eq!(e, Error::GetHeadersVersion);
    } else {
        panic!("should have failed");
    }
}

#[test]
fn when_decode_with_4_vec_then_fail_parse_error_locators() {

    let dump = "
00000000   01 00 00 00                                        ver.............
";

    let data : Vec<u8> = hexdump::decode(dump);
    let mut c = Cursor::new(&data);
    let result = GetHeaders::decode(&mut c);
    assert!(result.is_err());
    assert_eq!(c.position(), 4);

    if let Err(e) = result {
        assert_eq!(e, Error::GetHeadersLocators);
    } else {
        panic!("should have failed");
    }
}

#[test]
fn when_decode_getheaders_valid_dump_then_decode_ok() {

    let dump = "
00000000   f9 be b4 d9 67 65 74 68  65 61 64 65 72 73 00 00   main.getheaders.
00000010   01 02 03 04 01 02 03 04  71 11 01 00 02 10 10 10   siz.has.ver.c.bl
00000020   10 11 11 11 11 12 12 12  12 13 13 13 13 14 14 14   ock1.block1.bloc
00000030   14 15 15 15 15 16 16 16  16 00 00 00 00 20 20 20   block1.block1..b
00000040   20 21 21 21 21 22 22 22  22 23 23 23 23 24 24 24   lock2.block2.blo
00000050   24 25 25 25 25 26 26 26  26 00 00 00 00 30 30 30   ck2.block2.blo.s
00000060   30 31 31 31 31 32 32 32  32 33 33 33 33 34 34 34   top.stop.stop.st
00000070   34 35 35 35 35 36 36 36  36 00 00 00 00            top.stop.sto
";

    let data : Vec<u8> = hexdump::decode(dump);
    let mut c = Cursor::new(&data);
    c.set_position(24); // move beyond network protocol headers

    let result = GetHeaders::decode(&mut c);
    assert!(result.is_ok());
    assert_eq!(c.position() as usize, data.len());

    let message : GetHeaders = result.unwrap();
    assert_eq!(message.version, 70001);
    assert_eq!(message.locators.len(), 0x02);

    let locator1 : &Sha256 = message.locators.get(0).unwrap();
    assert_eq!(locator1.hash, [
        0x10, 0x10, 0x10, 0x10, 0x11, 0x11, 0x11, 0x11, 0x12, 0x12, 0x12, 0x12, 0x13, 0x13, 0x13, 0x13,  
        0x14, 0x14, 0x14, 0x14, 0x15, 0x15, 0x15, 0x15, 0x16, 0x16, 0x16, 0x16, 0x00, 0x00, 0x00, 0x00,
    ]); 

    let locator2 : &Sha256 = message.locators.get(1).unwrap();
    assert_eq!(locator2.hash, [
        0x20, 0x20, 0x20, 0x20, 0x21, 0x21, 0x21, 0x21, 0x22, 0x22, 0x22, 0x22, 0x23, 0x23, 0x23, 0x23,  
        0x24, 0x24, 0x24, 0x24, 0x25, 0x25, 0x25, 0x25, 0x26, 0x26, 0x26, 0x26, 0x00, 0x00, 0x00, 0x00,
    ]); 

    let stop : Sha256 = message.stop;
    assert_eq!(stop.hash, [
        0x30, 0x30, 0x30, 0x30, 0x31, 0x31, 0x31, 0x31, 0x32, 0x32, 0x32, 0x32, 0x33, 0x33, 0x33, 0x33,  
        0x34, 0x34, 0x34, 0x34, 0x35, 0x35, 0x35, 0x35, 0x36, 0x36, 0x36, 0x36, 0x00, 0x00, 0x00, 0x00,
    ]); 
}

#[test]
fn when_decode_encode_getheaders_then_same() {

    let dump = "
00000000                            71 11 01 00 02 10 10 10           ver.c.bl
00000010   10 11 11 11 11 12 12 12  12 13 13 13 13 14 14 14   ock1.block1.bloc
00000020   14 15 15 15 15 16 16 16  16 00 00 00 00 20 20 20   block1.block1..b
00000030   20 21 21 21 21 22 22 22  22 23 23 23 23 24 24 24   lock2.block2.blo
00000040   24 25 25 25 25 26 26 26  26 00 00 00 00 30 30 30   ck2.block2.blo.s
00000050   30 31 31 31 31 32 32 32  32 33 33 33 33 34 34 34   top.stop.stop.st
00000060   34 35 35 35 35 36 36 36  36 00 00 00 00            top.stop.sto
";

    let original : Vec<u8> = hexdump::decode(dump);
    let mut c = Cursor::new(&original);

    let decoded = GetHeaders::decode(&mut c);
    assert!(decoded.is_ok());
    assert_eq!(c.position() as usize, original.len());

    let mut result : Vec<u8> = Vec::new();
    let encoded = decoded.unwrap().encode(&mut result);
    assert!(encoded.is_ok());

    assert_eq!(original, result);
}

#[test]
fn when_encode_getheaders_then_same() {

    let dump = "
00000000                            71 11 01 00 02 10 10 10           ver.c.bl
00000010   10 11 11 11 11 12 12 12  12 13 13 13 13 14 14 14   ock1.block1.bloc
00000020   14 15 15 15 15 16 16 16  16 00 00 00 00 20 20 20   block1.block1..b
00000030   20 21 21 21 21 22 22 22  22 23 23 23 23 24 24 24   lock2.block2.blo
00000040   24 25 25 25 25 26 26 26  26 00 00 00 00 30 30 30   ck2.block2.blo.s
00000050   30 31 31 31 31 32 32 32  32 33 33 33 33 34 34 34   top.stop.stop.st
00000060   34 35 35 35 35 36 36 36  36 00 00 00 00            top.stop.sto
";

    let original : Vec<u8> = hexdump::decode(dump);
    
    let mut locators : Vec<Sha256> = Vec::new();
    let loc1 = Sha256 {
        hash: [
            0x10, 0x10, 0x10, 0x10, 0x11, 0x11, 0x11, 0x11, 
            0x12, 0x12, 0x12, 0x12, 0x13, 0x13, 0x13, 0x13, 
            0x14, 0x14, 0x14, 0x14, 0x15, 0x15, 0x15, 0x15, 
            0x16, 0x16, 0x16, 0x16, 0x00, 0x00, 0x00, 0x00
        ]
    };

    let loc2 = Sha256 {
        hash: [
            0x20, 0x20, 0x20, 0x20, 0x21, 0x21, 0x21, 0x21, 
            0x22, 0x22, 0x22, 0x22, 0x23, 0x23, 0x23, 0x23, 
            0x24, 0x24, 0x24, 0x24, 0x25, 0x25, 0x25, 0x25, 
            0x26, 0x26, 0x26, 0x26, 0x00, 0x00, 0x00, 0x00
        ]
    };
    locators.push(loc1);
    locators.push(loc2);

    let stop = Sha256 {
        hash: [
            0x30, 0x30, 0x30, 0x30, 0x31, 0x31, 0x31, 0x31, 
            0x32, 0x32, 0x32, 0x32, 0x33, 0x33, 0x33, 0x33, 
            0x34, 0x34, 0x34, 0x34, 0x35, 0x35, 0x35, 0x35, 
            0x36, 0x36, 0x36, 0x36, 0x00, 0x00, 0x00, 0x00
        ]
    };

    let message = GetHeaders {
        version: 70001,
        locators: locators,
        stop: stop
    };

    let mut result : Vec<u8> = Vec::new();
    let encoded = message.encode(&mut result);
    assert!(encoded.is_ok());

    assert_eq!(original, result);
}

#[test]
fn when_encode_inv_then_nothing_to_encode() {

    let message = Inv {
        data: Vec::new()
    };
    let mut data : Vec<u8> = Vec::new();

    let result = message.encode(&mut data);
    assert!(result.is_ok());
    assert_eq!(1, data.len())
}

#[test]
fn when_decode_inv_then_nothing_to_encode() {

    let data : Vec<u8> = vec![ 0x0 ];
    let mut read = Cursor::new(&data);
    let result = Inv::decode(&mut read);

    let expected = Inv {
        data: Vec::new()
    };

    assert!(result.is_ok());
    assert_eq!(expected, result.unwrap());
}

#[test]
fn when_encode_getaddr_message_then_same() {

    let dump = "
00000000   F9 BE B4 D9 67 65 74 61  64 64 72 00 00 00 00 00   main.getaddr....
00000010   00 00 00 00 5D F6 E0 E2                            len.checksu.data
";
    let original : Vec<u8> = hexdump::decode(dump);
    
    let payload = Payload::GetAddr(GetAddr { });
    let message = Message {
        magic: Magic::MainNet,
        payload: payload
    };

    let mut result : Vec<u8> = Vec::new();
    let encoded = message.encode(&mut result);

    assert!(encoded.is_ok());
    assert_eq!(original, result);
}

#[test]
fn when_encode_ping_then_nothing_to_encode() {

    let message = Ping {
        nonce: 0
    };
    let mut data : Vec<u8> = Vec::new();

    let result = message.encode(&mut data);
    assert!(result.is_ok());
    assert_eq!(8, data.len())
}

#[test]
fn when_decode_ping_then_nothing_to_encode() {

    let data : Vec<u8> = vec![0u8; 8];
    let mut read = Cursor::new(&data);
    let result = Ping::decode(&mut read);

    let expected = Ping {
        nonce: 0
    };

    assert!(result.is_ok());
    assert_eq!(expected, result.unwrap());
}

#[test]
fn when_decode_ping_one_then_nothing_to_encode() {

    let data : Vec<u8> = vec![1u8; 8];
    let mut read = Cursor::new(&data);
    let result = Ping::decode(&mut read);

    let expected = Ping {
        nonce: 72340172838076673
    };

    assert!(result.is_ok());

    let success = result.unwrap();
    assert_eq!(expected, success);
}

#[test]
fn when_encode_verack_then_nothing_to_encode() {

    let message = VerAck {};
    let mut data : Vec<u8> = Vec::new();

    let result = message.encode(&mut data);
    assert!(result.is_ok());
    assert_eq!(0, data.len())
}

#[test]
fn when_decode_verack_then_nothing_to_encode() {

    let data : Vec<u8> = Vec::new();
    let mut read = Cursor::new(&data);
    let result = VerAck::decode(&mut read);

    let expected = VerAck {};

    assert!(result.is_ok());
    assert_eq!(expected, result.unwrap());
}

#[test]
fn when_encode_decode_version_message_then_message_equal() {
    let dump = "
00000000   72 11 01 00 01 00 00 00  00 00 00 00 e6 e0 84 53   ver.service.time
00000000   00 00 00 00 01 00 00 00  00 00 00 00 00 00 00 00   ................
00000000   00 00 00 00 00 00 ff ff  00 00 00 00 00 00 01 00   ................
00000000   00 00 00 00 00 00 fd 87  d8 7e eb 43 64 f2 2c f5   ................
00000000   4d ca 59 41 2d b7 20 8d  47 d9 20 cf fc e8 3e e8   .........nonce..
00000000   10 2f 53 61 74 6f 73 68  69 3a 30 2e 39 2e 39 39   .useragent......
00000000   2f 2c 9f 04 00 01                                  height.relay.   
";

    // This message is from a satoshi node, morning of May 27 2014
    let original : Vec<u8> = hexdump::decode(dump);
    let mut r = Cursor::new(&original);
    let decoded_result = Version::decode(&mut r);
    assert!(decoded_result.is_ok());

    let decoded = decoded_result.unwrap();
    let mut reencoded : Vec<u8> = Vec::new();
    let encode_result = decoded.encode(&mut reencoded);
    assert!(encode_result.is_ok());

    assert_eq!(original, reencoded);
}

#[test]
fn when_getheaders_valid_then_result_ok_test() {

    let dump = "
00000000   f9 be b4 d9 67 65 74 68  65 61 64 65 72 73 00 00   main.getheaders.
00000000   01 02 03 04 01 02 03 04  71 11 01 00 02 d3 9f 60   siz.has.ver.c.bl
00000000   8a 77 75 b5 37 72 98 84  d4 e6 63 3b b2 10 5e 55   ock1.block1.bloc
00000000   a1 6a 14 d3 1b 00 00 00  00 00 00 00 00 00 5c 3e   block1.block1..b
00000000   64 03 d4 08 37 11 0a 2e  8a fb 60 2b 1c 01 71 4b   lock2.block2.blo
00000000   da 7c e2 3b ea 0a 00 00  00 00 00 00 00 00 00 00   ck2.block2.blo.s
00000000   00 00 00 00 00 00 00 00  00 00 00 00 00 00 00 00   top.stop.stop.st
00000000   00 00 00 00 00 00 00 00  00 00 00 00 00            top.stop.sto
";


    let data : Vec<u8> = hexdump::decode(dump);
    let mut c = Cursor::new(&data);
    c.set_position(24); // move beyond network protocol headers
    let result = getheaders::decode(&mut c);

    assert_eq!(c.position() as usize, data.len());
    assert!(result.is_ok());

    let message : GetHeaders = result.unwrap();

    assert_eq!(message.version, 70001);
    assert_eq!(message.locators.len(), 0x02);

    let locator1 : &Sha256 = message.locators.get(0).unwrap();
    assert_eq!(locator1.hash, [
        0xd3, 0x9f, 0x60, 0x8a, 0x77, 0x75, 0xb5, 0x37, 0x72, 0x98, 0x84, 0xd4, 0xe6, 0x63, 0x3b, 0xb2, 
        0x10, 0x5e, 0x55, 0xa1, 0x6a, 0x14, 0xd3, 0x1b, 0x00, 0x00, 0x00, 0x00, 0x00, 0x00, 0x00, 0x00
    ]); 

    let locator2 : &Sha256 = message.locators.get(1).unwrap();
    assert_eq!(locator2.hash, [
        0x00, 0x5c, 0x3e, 0x64, 0x03, 0xd4, 0x08, 0x37, 0x11, 0x0a, 0x2e, 0x8a, 0xfb, 0x60, 0x2b, 0x1c, 
        0x01, 0x71, 0x4b, 0xda, 0x7c, 0xe2, 0x3b, 0xea, 0x0a, 0x00, 0x00, 0x00, 0x00, 0x00, 0x00, 0x00
    ]); 

    let stop : Sha256 = message.stop;
    assert_eq!(stop.hash, [
        0x00, 0x00, 0x00, 0x00, 0x00, 0x00, 0x00, 0x00, 0x00, 0x00, 0x00, 0x00, 0x00, 0x00, 0x00, 0x00, 
        0x00, 0x00, 0x00, 0x00, 0x00, 0x00, 0x00, 0x00, 0x00, 0x00, 0x00, 0x00, 0x00, 0x00, 0x00, 0x00
    ]); 

}

#[test]
fn when_version_with_0_2_0_then_parse_alert_test() {

    let dump = "
00000000   F9 BE B4 D9 76 65 72 73  69 6F 6E 00 00 00 00 00   ....version.....
00000010   68 00 00 00 E8 F3 FD 18  7F 11 01 00 0D 04 00 00   h...............
00000020   00 00 00 00 A6 85 32 5C  00 00 00 00 00 00 00 00   ......2.........
00000030   00 00 00 00 00 00 00 00  00 00 00 00 00 00 00 00   ................
00000040   00 00 00 00 00 00 0D 04  00 00 00 00 00 00 00 00   ................
00000050   00 00 00 00 00 00 00 00  00 00 00 00 00 00 00 00   ................
00000060   A2 57 8C BA 40 A6 CC B8  12 2F 53 61 74 6F 73 68   .W..@..../Satosh
00000070   69 3A 30 2E 31 37 2E 30  2E 31 2F 02 38 08 00 01   i:0.17.0.1/.8...
00000080   F9 BE B4 D9 76 65 72 61  63 6B 00 00 00 00 00 00   ....verack......
00000090   00 00 00 00 5D F6 E0 E2  F9 BE B4 D9 61 6C 65 72   ....].......aler
000000a0   74 00 00 00 00 00 00 00  A8 00 00 00 1B F9 AA EA   t...............
000000b0   60 01 00 00 00 00 00 00  00 00 00 00 00 FF FF FF   `...............
000000c0   7F 00 00 00 00 FF FF FF  7F FE FF FF 7F 01 FF FF   ................
000000d0   FF 7F 00 00 00 00 FF FF  FF 7F 00 FF FF FF 7F 00   ................
000000e0   2F 55 52 47 45 4E 54 3A  20 41 6C 65 72 74 20 6B   /URGENT: Alert k
000000f0   65 79 20 63 6F 6D 70 72  6F 6D 69 73 65 64 2C 20   ey compromised,
00000100   75 70 67 72 61 64 65 20  72 65 71 75 69 72 65 64   upgrade required
00000110   00 46 30 44 02 20 65 3F  EB D6 41 0F 47 0F 6B AE   .F0D. e?..A.G.k.
00000120   11 CA D1 9C 48 41 3B EC  B1 AC 2C 17 F9 08 FD 0F   ....HA;...,.....
00000130   D5 3B DC 3A BD 52 02 20  6D 0E 9C 96 FE 88 D4 A0   .;.:.R. m.......
00000140   F0 1E D9 DE DA E2 B6 F9  E0 0D A9 4C AD 0F EC AA   ...........L....
00000150   E6 6E CF 68 9B F7 1B 50                            .n.h...P
    ";

    let data : Vec<u8> = hexdump::decode(dump);
    assert_eq!(data.len(), 0x158);

    let mut r = Cursor::new(&data);
    let decoded = <Vec<Message>>::decode(&mut r);
    
    println!("{:?}", decoded);

    assert!(decoded.is_ok());

    let messages = decoded.unwrap();
    for message in messages {
        println!("{:?}", message);
    }

}
