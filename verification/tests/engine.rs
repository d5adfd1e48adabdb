use miner::difficulty::check_difficulty;
use miner::encoding::hex_encode;
use miner::hashing::sha256d;
use sha2::Digest;
use sha2::Sha256;

#[test]
fn difficulty_zero_always_met() {
    assert!(check_difficulty(&[0xff; 32], 0));
    assert!(check_difficulty(&[0x00; 32], 0));
    assert!(check_difficulty(&[], 0));
}

#[test]
fn difficulty_full_bytes() {
    let mut digest = [0u8; 32];
    digest[2] = 0x7f;
    for rest in 3..32 {
        digest[rest] = 0xff;
    }
    assert!(check_difficulty(&digest, 16));
    // 0x7f has its top bit zero, so one more bit is still fine...
    assert!(check_difficulty(&digest, 17));
    // ...but its second bit is set.
    assert!(!check_difficulty(&digest, 18));
}

#[test]
fn difficulty_partial_byte_mask() {
    let mut digest = [0xffu8; 32];
    digest[0] = 0x1f; // 0001_1111: three leading zero bits
    assert!(check_difficulty(&digest, 3));
    assert!(!check_difficulty(&digest, 4));
}

#[test]
fn difficulty_flipping_a_required_bit_fails() {
    let all_zero = [0u8; 32];
    assert!(check_difficulty(&all_zero, 256));
    let mut flipped = all_zero;
    flipped[31] = 0x01; // flip the very last required bit
    assert!(!check_difficulty(&flipped, 256));
    assert!(check_difficulty(&flipped, 255));
}

#[test]
fn difficulty_beyond_digest_is_not_met() {
    assert!(!check_difficulty(&[0u8; 32], 257));
    assert!(!check_difficulty(&[0u8; 32], u32::MAX));
    assert!(!check_difficulty(&[], 1));
}

#[test]
fn sha256d_matches_double_sha256() {
    let expected = Sha256::digest(Sha256::digest(b"abc")).to_vec();
    assert_eq!(sha256d(b"abc"), expected);
}

#[test]
fn sha256d_known_value() {
    let digest = sha256d(b"abc");
    let hex = String::from_utf8(hex_encode(&digest)).unwrap();
    assert_eq!(hex, "4f8b42c22dd3729b519ba6f68d2da7cc5b2d606d05daed5ad5128cc03e6c6358");
}

#[test]
fn sha256d_deterministic_and_input_sensitive() {
    let a1 = sha256d(b"header0");
    let a2 = sha256d(b"header0");
    assert_eq!(a1, a2);
    let b = sha256d(b"header1");
    assert_ne!(a1, b);
    assert_ne!(a1, b"header0".to_vec());
    assert_eq!(a1.len(), 32);
}
