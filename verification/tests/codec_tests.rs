use green_site_backend::codec::{encode_file_name, split_name, u128_to_decimal};

fn split(name: &[u8]) -> Option<(Vec<u8>, Vec<u8>)> {
    split_name(name)
}

#[test]
fn decimal_of_zero() {
    assert_eq!(u128_to_decimal(0), b"0".to_vec());
}

#[test]
fn decimal_of_small_number() {
    assert_eq!(u128_to_decimal(7), b"7".to_vec());
    assert_eq!(u128_to_decimal(10), b"10".to_vec());
    assert_eq!(u128_to_decimal(12345), b"12345".to_vec());
}

#[test]
fn decimal_of_max_value() {
    assert_eq!(
        u128_to_decimal(u128::MAX),
        b"340282366920938463463374607431768211455".to_vec()
    );
}

#[test]
fn encode_builds_id_hyphen_name() {
    assert_eq!(encode_file_name(7, b"x.txt"), b"7-x.txt".to_vec());
    assert_eq!(encode_file_name(0, b"a"), b"0-a".to_vec());
}

#[test]
fn round_trip_plain_name() {
    let encoded = encode_file_name(98765, b"notes.txt");
    let (id, name) = split(&encoded).expect("encoded name must decode");
    assert_eq!(id, b"98765".to_vec());
    assert_eq!(name, b"notes.txt".to_vec());
}

#[test]
fn round_trip_name_with_hyphens() {
    let encoded = encode_file_name(5, b"a-b-c.txt");
    let (id, name) = split(&encoded).expect("encoded name must decode");
    assert_eq!(id, b"5".to_vec());
    assert_eq!(name, b"a-b-c.txt".to_vec());
}

#[test]
fn round_trip_max_id() {
    let encoded = encode_file_name(u128::MAX, b"f");
    let (id, name) = split(&encoded).expect("encoded name must decode");
    assert_eq!(id, b"340282366920938463463374607431768211455".to_vec());
    assert_eq!(name, b"f".to_vec());
}

#[test]
fn decode_splits_on_first_hyphen_only() {
    let (id, name) = split(b"12-34-56").expect("valid name must decode");
    assert_eq!(id, b"12".to_vec());
    assert_eq!(name, b"34-56".to_vec());
}

#[test]
fn decode_rejects_no_hyphen() {
    assert!(split(b"123456").is_none());
    assert!(split(b"notes.txt").is_none());
    assert!(split(b"").is_none());
}

#[test]
fn decode_rejects_empty_prefix() {
    assert!(split(b"-notes.txt").is_none());
    assert!(split(b"-").is_none());
}

#[test]
fn decode_rejects_non_digit_prefix() {
    assert!(split(b"12x-notes.txt").is_none());
    assert!(split(b"x1-notes.txt").is_none());
    assert!(split(b" 1-notes.txt").is_none());
}

#[test]
fn decode_rejects_missing_suffix() {
    assert!(split(b"123-").is_none());
    assert!(split(b"1-").is_none());
}
