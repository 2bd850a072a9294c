use base64::Engine;
use insurance_prover::artifact::{decode_artifact, encode_artifact, placeholder_verification_key};

#[test]
fn encode_artifact_gives_standard_base64() {
    assert_eq!(encode_artifact(b"hello world~"), Some(String::from("aGVsbG8gd29ybGR+")));
    assert_eq!(encode_artifact(&[0xfb, 0xff]), Some(String::from("+/8=")));
}

#[test]
fn encode_artifact_pads_to_a_multiple_of_four() {
    assert_eq!(encode_artifact(b"h"), Some(String::from("aA==")));
    assert_eq!(encode_artifact(b"he"), Some(String::from("aGU=")));
    assert_eq!(encode_artifact(b"hel"), Some(String::from("aGVs")));
}

#[test]
fn encode_artifact_of_nothing_is_empty() {
    assert_eq!(encode_artifact(&[]), Some(String::new()));
}

#[test]
fn encode_artifact_does_not_hand_its_argument_back() {
    let bytes = b"AAAA";
    let text = encode_artifact(bytes).unwrap();
    assert_ne!(text.as_bytes(), bytes);
    assert_eq!(text, "QUFBQQ==");
}

#[test]
fn encoded_length_is_four_for_every_three_bytes() {
    for n in 0..64usize {
        let bytes = vec![0x5au8; n];
        let text = encode_artifact(&bytes).unwrap();
        assert_eq!(text.chars().count(), 4 * ((n + 2) / 3));
    }
}

#[test]
fn encoded_text_holds_only_the_base64_alphabet() {
    let bytes: Vec<u8> = (0..=255u8).chain(0..=254u8).collect();
    for end in [0usize, 1, 2, 3, 254, 255, 256, 511] {
        let text = encode_artifact(&bytes[..end]).unwrap();
        assert!(text
            .chars()
            .all(|c| c.is_ascii_alphanumeric() || c == '+' || c == '/' || c == '='));
    }
}

#[test]
fn decoding_undoes_encoding() {
    for n in 0..200usize {
        let bytes: Vec<u8> = (0..n).map(|i| (i * 37 + n * 11) as u8).collect();
        let text = encode_artifact(&bytes).unwrap();
        assert_eq!(decode_artifact(&text), Some(bytes));
    }
}

#[test]
fn decoding_undoes_encoding_of_every_byte_value() {
    let bytes: Vec<u8> = (0..=255u8).collect();
    let text = encode_artifact(&bytes).unwrap();
    assert_eq!(decode_artifact(&text), Some(bytes));
}

#[test]
fn decoding_agrees_with_the_inverse_of_the_encoding() {
    let bytes = vec![0x1f, 0x8b, 0x08, 0x00, 0xff, 0x00, 0x7f];
    let text = encode_artifact(&bytes).unwrap();
    let decoded = base64::engine::general_purpose::STANDARD.decode(&text).unwrap();
    assert_eq!(decoded, bytes);
}

#[test]
fn decode_artifact_does_not_hand_its_argument_back() {
    assert_eq!(decode_artifact("aGVsbG8="), Some(b"hello".to_vec()));
}

#[test]
fn decode_artifact_refuses_what_is_no_encoding() {
    assert_eq!(decode_artifact("not base64!"), None);
    assert_eq!(decode_artifact("aGVsbG8"), None);
    assert_eq!(decode_artifact("aGVsbG8=\n"), None);
}

#[test]
fn placeholder_key_is_the_label_and_the_time() {
    assert_eq!(
        placeholder_verification_key(1700000000),
        "witness_verification_placeholder_1700000000"
    );
    assert_eq!(placeholder_verification_key(0), "witness_verification_placeholder_0");
}

#[test]
fn placeholder_key_of_a_time_before_1970() {
    assert_eq!(placeholder_verification_key(-5), "witness_verification_placeholder_-5");
}
