use license_gate::validator::{
    has_run_of_a, has_test_prefix, key_accumulator, mix, validate, verify_key, TARGET_ACC,
};

/// A direct simulation of the rounds, written independently of the library.
fn reference_accumulator(bytes: &[u8]) -> u32 {
    let mut x: u32 = 0x1234_5678;
    for &b in bytes {
        let m = ((x ^ b as u32).rotate_left(5).wrapping_add(0x9E37_79B9)) ^ 0xA5A5_A5A5;
        x = m ^ 0x1111_1111;
    }
    x
}

fn reference_validate(bytes: &[u8]) -> bool {
    if bytes.len() != 14 || bytes[4] != b'-' || bytes[9] != b'-' {
        return false;
    }
    if bytes.starts_with(b"TEST") || bytes.windows(4).any(|w| w == b"AAAA") {
        return false;
    }
    reference_accumulator(bytes) == 0x85FD_063D
}

#[test]
fn empty_string_is_rejected() {
    assert!(!validate(b""));
    assert!(!verify_key(""));
}

#[test]
fn all_a_key_is_rejected() {
    assert!(!verify_key("AAAA-AAAA-AAAA"));
}

#[test]
fn test_prefix_key_is_rejected() {
    assert!(!verify_key("TEST-0000-0000"));
}

#[test]
fn arbitrary_digit_key_is_rejected() {
    let key = b"1234-5678-9012";
    assert_eq!(key_accumulator(key), 0x83E5_F5A9);
    assert_eq!(key_accumulator(key), reference_accumulator(key));
    assert!(!validate(key));
    assert!(!verify_key("1234-5678-9012"));
}

#[test]
fn matching_key_is_accepted() {
    assert_eq!(key_accumulator(b"6D55-KEY2-1010"), TARGET_ACC);
    assert!(validate(b"6D55-KEY2-1010"));
    assert!(verify_key("6D55-KEY2-1010"));
    assert!(verify_key("6EC4-KEY2-9010"));
}

#[test]
fn matching_checksum_with_run_of_a_is_rejected() {
    assert_eq!(key_accumulator(b"4KG4-AAAA-9O50"), TARGET_ACC);
    assert!(!validate(b"4KG4-AAAA-9O50"));
}

#[test]
fn wrong_lengths_are_rejected() {
    let long = b"6D55-KEY2-10106D55-KEY2-1010";
    for n in 0..long.len() {
        if n != 14 {
            assert!(!validate(&long[..n]), "length {}", n);
        }
    }
    assert!(!verify_key("6D55-KEY2-1010 "));
    assert!(!verify_key("6D55-KEY2-101"));
}

#[test]
fn misplaced_dashes_are_rejected() {
    assert!(!verify_key("6D55KKEY2-1010"));
    assert!(!verify_key("6D55-KEY2K1010"));
    assert!(!verify_key("6D5-5KEY2-1010"));
    assert!(!verify_key("12345678901234"));
}

#[test]
fn run_of_a_anywhere_is_rejected() {
    assert!(!verify_key("AAAA-1234-5678"));
    assert!(!verify_key("1234-AAAA-5678"));
    assert!(!verify_key("1234-5678-AAAA"));
    assert!(has_run_of_a(b"xAAAAx"));
    assert!(has_run_of_a(b"AAAA"));
    assert!(!has_run_of_a(b"AAA-A"));
    assert!(!has_run_of_a(b"AAA"));
    assert!(!has_run_of_a(b""));
}

#[test]
fn test_prefix_detection() {
    assert!(has_test_prefix(b"TEST"));
    assert!(has_test_prefix(b"TEST-1234-5678"));
    assert!(!has_test_prefix(b"TES"));
    assert!(!has_test_prefix(b"test-1234-5678"));
    assert!(!has_test_prefix(b"1TEST"));
    assert!(!verify_key("TEST-KEY2-1010"));
}

#[test]
fn verdict_is_deterministic() {
    for key in ["6D55-KEY2-1010", "1234-5678-9012", "", "TEST-0000-0000"] {
        assert_eq!(verify_key(key), verify_key(key));
        assert_eq!(key_accumulator(key.as_bytes()), key_accumulator(key.as_bytes()));
    }
}

#[test]
fn mix_exact_values() {
    assert_eq!(mix(0, 0), 0x3B92_DC1C);
    assert_eq!(mix(0x1234_5678, b'1'), 0x4167_E77E);
    assert_eq!(mix(0xFFFF_FFFF, 0xFF), 0x3B92_FC7D);
}

#[test]
fn accumulator_exact_values() {
    assert_eq!(key_accumulator(b""), 0x1234_5678);
    assert_eq!(key_accumulator(b"A"), 0x5076_F46F);
    assert_eq!(key_accumulator(b"AAAA-AAAA-AAAA"), 0x14E4_BC75);
    assert_eq!(key_accumulator(b"TEST-0000-0000"), 0xFAE6_E428);
}

#[test]
fn agrees_with_reference_simulation() {
    let alphabet = b"0123456789ABCDEFGHIJKLMNOPQRSTUVWXYZabcdefghijklmnopqrstuvwxyz-!~";
    let mut seed: u64 = 0x9E37_79B9_7F4A_7C15;
    for _ in 0..20000 {
        let mut key = [0u8; 14];
        for slot in key.iter_mut() {
            seed = seed.wrapping_mul(6364136223846793005).wrapping_add(1442695040888963407);
            *slot = alphabet[(seed >> 33) as usize % alphabet.len()];
        }
        key[4] = b'-';
        key[9] = b'-';
        assert_eq!(key_accumulator(&key), reference_accumulator(&key));
        assert_eq!(validate(&key), reference_validate(&key));
    }
    for key in [&b"6D55-KEY2-1010"[..], b"4KG4-AAAA-9O50", b"TEST-0000-0000", b"\xff\x00\x80"] {
        assert_eq!(validate(key), reference_validate(key));
        assert_eq!(key_accumulator(key), reference_accumulator(key));
    }
}
