use miner::encoding::hex_decode;
use miner::encoding::hex_encode;
use miner::encoding::u64_to_dec;
use miner::hashing::sha256d;

#[test]
fn decimal_rendering() {
    assert_eq!(u64_to_dec(0), b"0".to_vec());
    assert_eq!(u64_to_dec(7), b"7".to_vec());
    assert_eq!(u64_to_dec(10), b"10".to_vec());
    assert_eq!(u64_to_dec(12345), b"12345".to_vec());
    assert_eq!(u64_to_dec(u64::MAX), b"18446744073709551615".to_vec());
}

#[test]
fn hex_encoding_exact() {
    assert_eq!(hex_encode(&[]), b"".to_vec());
    assert_eq!(hex_encode(&[0x00]), b"00".to_vec());
    assert_eq!(hex_encode(&[0xde, 0xad, 0xbe, 0xef]), b"deadbeef".to_vec());
    assert_eq!(hex_encode(&[0x0f, 0xf0, 0x9a]), b"0ff09a".to_vec());
}

#[test]
fn hex_encoding_matches_hex_crate() {
    let bytes: Vec<u8> = (0u16..=255u16).map(|b| b as u8).collect();
    let ours = String::from_utf8(hex_encode(&bytes)).unwrap();
    assert_eq!(ours, hex::encode(&bytes));
}

#[test]
fn hex_round_trip() {
    for input in [
        vec![],
        vec![0x00],
        vec![0xff],
        vec![0x01, 0x23, 0x45, 0x67, 0x89, 0xab, 0xcd, 0xef],
        sha256d(b"round trip"),
    ] {
        let encoded = hex_encode(&input);
        assert_eq!(hex_decode(&encoded), Some(input));
    }
}

#[test]
fn hex_decode_accepts_uppercase() {
    assert_eq!(hex_decode(b"DEADBEEF"), Some(vec![0xde, 0xad, 0xbe, 0xef]));
    assert_eq!(hex_decode(b"DeAdBeEf"), Some(vec![0xde, 0xad, 0xbe, 0xef]));
}

#[test]
fn hex_decode_rejects_bad_input() {
    assert_eq!(hex_decode(b"abc"), None); // odd length
    assert_eq!(hex_decode(b"zz"), None); // not a digit
    assert_eq!(hex_decode(b"0g"), None);
    assert_eq!(hex_decode(b" 00"), None);
}
