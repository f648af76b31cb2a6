use base64::Engine;
use rcli::{decode_signature, encode_signature, process_decode, process_encode, Base64Format,
    TextError};

#[test]
fn test_round_trip_empty() {
    let encoded = encode_signature(&[]);
    assert_eq!(encoded, "");
    assert_eq!(decode_signature(&encoded), Ok(vec![]));
}

#[test]
fn test_round_trip_buffers() {
    let cases: Vec<Vec<u8>> = vec![
        vec![0],
        vec![255],
        vec![1, 2, 3],
        vec![0, 0, 0, 0],
        (0u16..256).map(|b| b as u8).collect(),
    ];
    for case in cases {
        let encoded = encode_signature(&case);
        assert_eq!(decode_signature(&encoded), Ok(case));
    }
}

#[test]
fn test_encode_signature_is_urlsafe_unpadded() {
    assert_eq!(encode_signature(b"hello"), "aGVsbG8");
    assert_eq!(encode_signature(&[0xfb, 0xf0]), "-_A");
    let encoded = encode_signature(&[0xfb, 0xf0]);
    assert_eq!(
        encoded,
        base64::engine::general_purpose::URL_SAFE_NO_PAD.encode([0xfb, 0xf0])
    );
}

#[test]
fn test_decode_rejects_bad_alphabet() {
    assert_eq!(decode_signature("%%%%"), Err(TextError::EncodingError));
    assert_eq!(decode_signature("+/A"), Err(TextError::EncodingError));
}

#[test]
fn test_decode_rejects_padding() {
    assert_eq!(decode_signature("aGVsbG8="), Err(TextError::EncodingError));
}

#[test]
fn test_process_encode_standard() {
    assert_eq!(process_encode(b"hello", Base64Format::Standard), "aGVsbG8=");
    assert_eq!(process_encode(&[0xfb, 0xf0], Base64Format::Standard), "+/A=");
    assert_eq!(process_encode(b"hello", Base64Format::UrlSafe), "aGVsbG8");
}

#[test]
fn test_process_decode_standard() {
    assert_eq!(
        process_decode("aGVsbG8=", Base64Format::Standard),
        Ok(b"hello".to_vec())
    );
    assert_eq!(
        process_decode("aGVsbG8", Base64Format::Standard),
        Err(TextError::EncodingError)
    );
    assert_eq!(
        process_decode("aGVsbG8", Base64Format::UrlSafe),
        Ok(b"hello".to_vec())
    );
    assert_eq!(
        process_decode("+/A=", Base64Format::Standard),
        Ok(vec![0xfb, 0xf0])
    );
}
