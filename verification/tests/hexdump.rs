use rbtc::utils::hexdump;

#[test]
fn when_encode_16_then_ok() {

    let data : Vec<u8> = vec![0; 16];
    let expected = "
00000000   00 00 00 00 00 00 00 00  00 00 00 00 00 00 00 00   ................
";
    let result = hexdump::encode(data);

    assert_eq!(expected, result)
}

#[test]
fn when_encode_32_then_ok() {

    let data : Vec<u8> = vec![0; 32];
    let expected = "
00000000   00 00 00 00 00 00 00 00  00 00 00 00 00 00 00 00   ................
00000010   00 00 00 00 00 00 00 00  00 00 00 00 00 00 00 00   ................
";
    let result = hexdump::encode(data);

    assert_eq!(expected, result)
}

#[test]
fn when_encode_48_then_ok() {

    let data : Vec<u8> = vec![0; 48];
    let expected = "
00000000   00 00 00 00 00 00 00 00  00 00 00 00 00 00 00 00   ................
00000010   00 00 00 00 00 00 00 00  00 00 00 00 00 00 00 00   ................
00000020   00 00 00 00 00 00 00 00  00 00 00 00 00 00 00 00   ................
";
    let result = hexdump::encode(data);

    assert_eq!(expected, result)
}

#[test]
fn when_encode_256_then_ok() {

    let data : Vec<u8> = vec![0; 256];
    let expected = "
00000000   00 00 00 00 00 00 00 00  00 00 00 00 00 00 00 00   ................
00000010   00 00 00 00 00 00 00 00  00 00 00 00 00 00 00 00   ................
00000020   00 00 00 00 00 00 00 00  00 00 00 00 00 00 00 00   ................
00000030   00 00 00 00 00 00 00 00  00 00 00 00 00 00 00 00   ................
00000040   00 00 00 00 00 00 00 00  00 00 00 00 00 00 00 00   ................
00000050   00 00 00 00 00 00 00 00  00 00 00 00 00 00 00 00   ................
00000060   00 00 00 00 00 00 00 00  00 00 00 00 00 00 00 00   ................
00000070   00 00 00 00 00 00 00 00  00 00 00 00 00 00 00 00   ................
00000080   00 00 00 00 00 00 00 00  00 00 00 00 00 00 00 00   ................
00000090   00 00 00 00 00 00 00 00  00 00 00 00 00 00 00 00   ................
000000a0   00 00 00 00 00 00 00 00  00 00 00 00 00 00 00 00   ................
000000b0   00 00 00 00 00 00 00 00  00 00 00 00 00 00 00 00   ................
000000c0   00 00 00 00 00 00 00 00  00 00 00 00 00 00 00 00   ................
000000d0   00 00 00 00 00 00 00 00  00 00 00 00 00 00 00 00   ................
000000e0   00 00 00 00 00 00 00 00  00 00 00 00 00 00 00 00   ................
000000f0   00 00 00 00 00 00 00 00  00 00 00 00 00 00 00 00   ................
";
    let result = hexdump::encode(data);

    assert_eq!(expected, result)
}

#[test]
fn when_encode_8_then_ok() {

    let data : Vec<u8> = vec![0; 8];
    let expected = "
00000000   00 00 00 00 00 00 00 00                            ........        
";
    let result = hexdump::encode(data);

    assert_eq!(expected, result)
}

#[test]
fn when_encode_0_then_ok() {

    let data : Vec<u8> = vec![0; 0];
    let expected = "
00000000                                                                      
";
    let result = hexdump::encode(data);

    assert_eq!(expected, result)
}

#[test]
fn when_encode_24_then_ok() {

    let data : Vec<u8> = vec![0; 24];
    let expected = "
00000000   00 00 00 00 00 00 00 00  00 00 00 00 00 00 00 00   ................
00000010   00 00 00 00 00 00 00 00                            ........        
";
    let result = hexdump::encode(data);

    assert_eq!(expected, result)
}

#[test]
fn when_encode_40_then_ok() {

    let data : Vec<u8> = vec![0; 40];
    let expected = "
00000000   00 00 00 00 00 00 00 00  00 00 00 00 00 00 00 00   ................
00000010   00 00 00 00 00 00 00 00  00 00 00 00 00 00 00 00   ................
00000020   00 00 00 00 00 00 00 00                            ........        
";
    let result = hexdump::encode(data);

    assert_eq!(expected, result)
}

#[test]
fn when_encode_40_one_then_ok() {

    let data : Vec<u8> = vec![1; 40];
    let expected = "
00000000   01 01 01 01 01 01 01 01  01 01 01 01 01 01 01 01   ................
00000010   01 01 01 01 01 01 01 01  01 01 01 01 01 01 01 01   ................
00000020   01 01 01 01 01 01 01 01                            ........        
";
    let result = hexdump::encode(data);

    assert_eq!(expected, result)
}

#[test]
fn when_encode_40_61_then_ok() {

    let data : Vec<u8> = vec![97; 40];
    let expected = "
00000000   61 61 61 61 61 61 61 61  61 61 61 61 61 61 61 61   aaaaaaaaaaaaaaaa
00000010   61 61 61 61 61 61 61 61  61 61 61 61 61 61 61 61   aaaaaaaaaaaaaaaa
00000020   61 61 61 61 61 61 61 61                            aaaaaaaa        
";
    let result = hexdump::encode(data);

    assert_eq!(expected, result)
}

#[test]
fn when_decode_dump_then_lines_that_are_not_dump_lines_are_skipped() {
    let dump = "
00000000   01 02 03 04 05 06 07 08  09 0A 0b 0c 0D 0E 0F 10   ................
not a dump line
00000010   ff                                                 .\r
";
    assert_eq!(hexdump::decode(dump), (1u8..=16).chain(std::iter::once(0xFF)).collect::<Vec<u8>>());
    assert_eq!(hexdump::decode(""), Vec::<u8>::new());
    let text_too_long = "00000000   01                                                 .................";
    assert_eq!(hexdump::decode(text_too_long), Vec::<u8>::new());
}

#[test]
fn when_encode_then_decode_gives_the_bytes_back() {
    for len in [0usize, 1, 15, 16, 17, 33, 100] {
        let data: Vec<u8> = (0..len).map(|i| (i * 37 % 256) as u8).collect();
        let dump = hexdump::encode(data.clone());
        assert_eq!(hexdump::decode(&dump), data);
    }
}

#[test]
fn when_encode_printable_then_text_column_shows_them() {
    let data: Vec<u8> = vec![0x41, 0x34, 0x22, 0x5C, 0x7E, 0x7F, 0x20, 0x00];
    let expected = "
00000000   41 34 22 5C 7E 7F 20 00                            A.\".~. .        
";
    assert_eq!(hexdump::encode(data), expected);
}
