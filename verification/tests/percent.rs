use pathos::bytes::{append, copy_range, equal};
use pathos::percent::{decode_segment, encode_component};

#[test]
fn letters_and_digits_are_kept() {
    assert_eq!(encode_component(b"Pahkat2024"), b"Pahkat2024".to_vec());
    assert_eq!(encode_component(b""), Vec::<u8>::new());
}

#[test]
fn every_other_byte_is_escaped_in_upper_case() {
    assert_eq!(encode_component(b"foo bar?"), b"foo%20bar%3F".to_vec());
    assert_eq!(encode_component(b"a.b-c_d~e"), b"a%2Eb%2Dc%5Fd%7Ee".to_vec());
    assert_eq!(encode_component(&[0x00, 0x7f, 0x80, 0xff]), b"%00%7F%80%FF".to_vec());
    assert_eq!(encode_component(b"%/\\:"), b"%25%2F%5C%3A".to_vec());
}

#[test]
fn each_byte_alone() {
    for byte in 0..=255u8 {
        let expected = if byte.is_ascii_alphanumeric() {
            vec![byte]
        } else {
            format!("%{:02X}", byte).into_bytes()
        };
        assert_eq!(encode_component(&[byte]), expected);
        assert_eq!(decode_segment(&expected), vec![byte]);
    }
}

#[test]
fn decoding_inverts_encoding_for_every_byte() {
    let all: Vec<u8> = (0..=255u8).collect();
    let encoded = encode_component(&all);
    assert!(encoded.iter().all(|b| b.is_ascii_alphanumeric() || *b == b'%'));
    assert_eq!(decode_segment(&encoded), all);
}

#[test]
fn decoding_reads_both_cases_and_keeps_what_is_no_escape() {
    assert_eq!(decode_segment(b"foo%20bar%3f"), b"foo bar?".to_vec());
    assert_eq!(decode_segment(b"%C3%a9"), vec![0xc3, 0xa9]);
    assert_eq!(decode_segment(b"100%"), b"100%".to_vec());
    assert_eq!(decode_segment(b"%2"), b"%2".to_vec());
    assert_eq!(decode_segment(b"%zz%4"), b"%zz%4".to_vec());
    assert_eq!(decode_segment(b"%%41"), b"%A".to_vec());
    assert_eq!(decode_segment(b"%2541"), b"%41".to_vec());
}

#[test]
fn byte_string_helpers() {
    assert_eq!(copy_range(b"abcdef", 2, 4), b"cd".to_vec());
    assert_eq!(copy_range(b"abcdef", 3, 3), Vec::<u8>::new());
    let mut buffer = b"ab".to_vec();
    append(&mut buffer, b"cd");
    assert_eq!(buffer, b"abcd".to_vec());
    assert!(equal(b"abc", b"abc"));
    assert!(!equal(b"abc", b"abd"));
    assert!(!equal(b"abc", b"ab"));
}
