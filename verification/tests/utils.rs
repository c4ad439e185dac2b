use abci_server::error::Error;
use abci_server::utils::{uuid_from_bytes, uuid_from_fill, uuid_str};
use std::collections::HashSet;

fn has_the_form_of_a_random_uuid(text: &str) -> bool {
    let bytes = text.as_bytes();
    if bytes.len() != 36 {
        return false;
    }
    for (place, byte) in bytes.iter().enumerate() {
        let hyphen = place == 8 || place == 13 || place == 18 || place == 23;
        if hyphen && *byte != b'-' {
            return false;
        }
        if !hyphen && !(byte.is_ascii_digit() || (b'a'..=b'f').contains(byte)) {
            return false;
        }
    }
    bytes[14] == b'4' && matches!(bytes[19], b'8' | b'9' | b'a' | b'b')
}

#[test]
fn counting_bytes_give_the_expected_text() {
    let bytes = [0, 1, 2, 3, 4, 5, 6, 7, 8, 9, 10, 11, 12, 13, 14, 15];
    assert_eq!(uuid_from_bytes(bytes), "00010203-0405-4607-8809-0a0b0c0d0e0f");
}

#[test]
fn zero_bytes_give_version_and_variant_only() {
    assert_eq!(uuid_from_bytes([0; 16]), "00000000-0000-4000-8000-000000000000");
}

#[test]
fn set_bytes_keep_all_but_six_bits() {
    assert_eq!(uuid_from_bytes([0xff; 16]), "ffffffff-ffff-4fff-bfff-ffffffffffff");
}

#[test]
fn mixed_bytes_are_written_in_lower_case() {
    let bytes = [
        0xA1, 0xB2, 0xC3, 0xD4, 0xE5, 0xF6, 0x17, 0x28, 0x39, 0x4A, 0x5B, 0x6C, 0x7D, 0x8E, 0x9F,
        0xA0,
    ];
    assert_eq!(uuid_from_bytes(bytes), "a1b2c3d4-e5f6-4728-b94a-5b6c7d8e9fa0");
}

#[test]
fn overwritten_bits_do_not_tell_identifiers_apart() {
    let mut one = [0x5a; 16];
    let mut two = [0x5a; 16];
    one[6] = 0x0c;
    two[6] = 0xfc;
    one[8] = 0x01;
    two[8] = 0xc1;
    assert_eq!(uuid_from_bytes(one), uuid_from_bytes(two));
    two[9] = 0x5b;
    assert_ne!(uuid_from_bytes(one), uuid_from_bytes(two));
}

#[test]
fn identifier_agrees_with_the_uuid_crate() {
    let bytes = [0x10, 0x32, 0x54, 0x76, 0x98, 0xba, 0xdc, 0xfe, 0x01, 0x23, 0x45, 0x67, 0x89, 0xab, 0xcd, 0xef];
    let text = uuid_from_bytes(bytes);
    let parsed = match uuid::Uuid::parse_str(&text) {
        Ok(parsed) => parsed,
        Err(_) => panic!("the uuid crate does not read {}", text),
    };
    assert_eq!(parsed.get_version_num(), 4);
    assert_eq!(parsed.get_variant(), uuid::Variant::RFC4122);
    assert_eq!(parsed.as_bytes()[0..6], bytes[0..6]);
    assert_eq!(parsed.as_bytes()[9..16], bytes[9..16]);
}

#[test]
fn fresh_identifier_has_the_form_of_a_random_uuid() {
    for _ in 0..100 {
        match uuid_str() {
            Ok(text) => assert!(has_the_form_of_a_random_uuid(&text), "{}", text),
            Err(_) => panic!("the system gave no random bytes"),
        }
    }
}

#[test]
fn fresh_identifiers_do_not_repeat() {
    let mut seen = HashSet::new();
    for _ in 0..10_000 {
        match uuid_str() {
            Ok(text) => assert!(seen.insert(text)),
            Err(_) => panic!("the system gave no random bytes"),
        }
    }
    assert_eq!(seen.len(), 10_000);
}

#[test]
fn unfilled_buffer_is_an_entropy_failure() {
    assert_eq!(uuid_from_fill(false, [0; 16]), Err(Error::Entropy));
    assert_eq!(uuid_from_fill(false, [0x7e; 16]), Err(Error::Entropy));
}

#[test]
fn filled_buffer_gives_its_identifier() {
    assert_eq!(
        uuid_from_fill(true, [0x11; 16]),
        Ok("11111111-1111-4111-9111-111111111111".to_string())
    );
}
