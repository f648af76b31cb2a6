use base64::Engine;
use ed25519_dalek::Signer;
use rcli::{decode_signature, encode_signature, process_generate, process_text_sign,
    process_text_verify, Blake3, Ed2519Signer, Ed2519Verify, KeyLoader, TextError,
    TextSignFormat};

const GOLDEN_BLAKE3_ZERO_KEY_HELLO: &str = "4PaL_sNhIW7AL8FXNmQ6cEcdliYLD-byc6kJu4ttvYE";

#[test]
fn test_blake3_golden_zero_key_hello() {
    let key = vec![0u8; 32];
    let signed = process_text_sign(b"hello", &key, TextSignFormat::Blake3).unwrap();
    assert_eq!(signed, GOLDEN_BLAKE3_ZERO_KEY_HELLO);
}

#[test]
fn test_blake3_sign_matches_keyed_hash() {
    let key = [7u8; 32];
    let data = b"some content";
    let signed = process_text_sign(data, &key, TextSignFormat::Blake3).unwrap();
    let expected = base64::engine::general_purpose::URL_SAFE_NO_PAD
        .encode(blake3::keyed_hash(&key, data).as_bytes());
    assert_eq!(signed, expected);
}

#[test]
fn test_blake3_sign_verify_round_trip() {
    let key = [7u8; 32];
    let data = b"hello world";
    let signed = process_text_sign(data, &key, TextSignFormat::Blake3).unwrap();
    let verified = process_text_verify(data, &key, TextSignFormat::Blake3, &signed);
    assert_eq!(verified, Ok(true));
}

#[test]
fn test_blake3_different_keys_differ() {
    let data = b"the same data";
    let first = process_text_sign(data, &[1u8; 32], TextSignFormat::Blake3).unwrap();
    let second = process_text_sign(data, &[2u8; 32], TextSignFormat::Blake3).unwrap();
    assert_ne!(first, second);
}

#[test]
fn test_blake3_rejects_other_data() {
    let key = [9u8; 32];
    let signed = process_text_sign(b"original", &key, TextSignFormat::Blake3).unwrap();
    let verified = process_text_verify(b"tampered", &key, TextSignFormat::Blake3, &signed);
    assert_eq!(verified, Ok(false));
}

#[test]
fn test_blake3_any_mutated_byte_fails() {
    let key = [3u8; 32];
    let data = b"mutation coverage";
    let signed = process_text_sign(data, &key, TextSignFormat::Blake3).unwrap();
    let sig = decode_signature(&signed).unwrap();
    assert_eq!(sig.len(), 32);
    for i in 0..sig.len() {
        let mut bad = sig.clone();
        bad[i] ^= 0x01;
        let bad_text = encode_signature(&bad);
        let verified = process_text_verify(data, &key, TextSignFormat::Blake3, &bad_text);
        assert_eq!(verified, Ok(false));
    }
}

#[test]
fn test_blake3_wrong_length_signature_is_error() {
    let key = [0u8; 32];
    let short = encode_signature(&[1u8; 10]);
    let verified = process_text_verify(b"hello", &key, TextSignFormat::Blake3, &short);
    assert_eq!(verified, Err(TextError::SignatureLengthError));
}

#[test]
fn test_blake3_key_too_short_is_error() {
    assert!(matches!(
        Blake3::try_new(&[0u8; 10]),
        Err(TextError::KeyLengthError)
    ));
    assert!(matches!(
        Blake3::load(&[0u8; 10]),
        Err(TextError::KeyLengthError)
    ));
    assert_eq!(
        process_text_sign(b"hello", &[0u8; 10], TextSignFormat::Blake3),
        Err(TextError::KeyLengthError)
    );
    assert_eq!(
        process_text_verify(b"hello", &[0u8; 10], TextSignFormat::Blake3, "AAAA"),
        Err(TextError::KeyLengthError)
    );
}

#[test]
fn test_blake3_long_key_uses_first_32_bytes() {
    let mut long_key = vec![5u8; 40];
    for (i, b) in long_key.iter_mut().enumerate() {
        *b = i as u8;
    }
    let data = b"prefix key";
    let with_long = process_text_sign(data, &long_key, TextSignFormat::Blake3).unwrap();
    let with_exact = process_text_sign(data, &long_key[..32].to_vec(), TextSignFormat::Blake3)
        .unwrap();
    assert_eq!(with_long, with_exact);
}

#[test]
fn test_verify_rejects_undecodable_signature() {
    let key = [0u8; 32];
    let verified = process_text_verify(b"hello", &key, TextSignFormat::Blake3, "%%%%");
    assert_eq!(verified, Err(TextError::EncodingError));
    let verified = process_text_verify(b"hello", &key, TextSignFormat::Ed2519, "%%%%");
    assert_eq!(verified, Err(TextError::EncodingError));
}

#[test]
fn test_key_error_reported_before_signature_length() {
    let short_sig = encode_signature(&[1u8; 3]);
    let verified = process_text_verify(b"hello", &[0u8; 5], TextSignFormat::Blake3, &short_sig);
    assert_eq!(verified, Err(TextError::KeyLengthError));
}

#[test]
fn test_ed25519_generate_sign_verify() {
    let bundle = process_generate(TextSignFormat::Ed2519).unwrap();
    assert_eq!(bundle.len(), 2);
    let secret = &bundle[0];
    let public = &bundle[1];
    assert_eq!(secret.len(), 32);
    assert_eq!(public.len(), 32);
    let signed = process_text_sign(b"test", secret, TextSignFormat::Ed2519).unwrap();
    let verified = process_text_verify(b"test", public, TextSignFormat::Ed2519, &signed);
    assert_eq!(verified, Ok(true));
    let other = process_generate(TextSignFormat::Ed2519).unwrap();
    let verified_other = process_text_verify(b"test", &other[1], TextSignFormat::Ed2519, &signed);
    assert_eq!(verified_other, Ok(false));
}

#[test]
fn test_ed25519_signature_matches_reference() {
    let bundle = process_generate(TextSignFormat::Ed2519).unwrap();
    let seed: [u8; 32] = bundle[0].as_slice().try_into().unwrap();
    let signed = process_text_sign(b"abc", &bundle[0], TextSignFormat::Ed2519).unwrap();
    let sig = decode_signature(&signed).unwrap();
    let reference = ed25519_dalek::SigningKey::from_bytes(&seed).sign(b"abc");
    assert_eq!(sig, reference.to_bytes().to_vec());
    let derived = ed25519_dalek::SigningKey::from_bytes(&seed)
        .verifying_key()
        .to_bytes()
        .to_vec();
    assert_eq!(bundle[1], derived);
}

#[test]
fn test_ed25519_any_mutated_byte_fails() {
    let bundle = process_generate(TextSignFormat::Ed2519).unwrap();
    let data = b"mutation coverage";
    let signed = process_text_sign(data, &bundle[0], TextSignFormat::Ed2519).unwrap();
    let sig = decode_signature(&signed).unwrap();
    assert_eq!(sig.len(), 64);
    for i in 0..sig.len() {
        let mut bad = sig.clone();
        bad[i] ^= 0x01;
        let bad_text = encode_signature(&bad);
        let verified = process_text_verify(data, &bundle[1], TextSignFormat::Ed2519, &bad_text);
        assert_eq!(verified, Ok(false));
    }
}

#[test]
fn test_ed25519_wrong_length_signature_is_error() {
    let bundle = process_generate(TextSignFormat::Ed2519).unwrap();
    let short = encode_signature(&[1u8; 10]);
    let verified = process_text_verify(b"hello", &bundle[1], TextSignFormat::Ed2519, &short);
    assert_eq!(verified, Err(TextError::SignatureLengthError));
}

#[test]
fn test_ed25519_key_length_errors() {
    assert!(matches!(
        Ed2519Signer::try_new(&[0u8; 31]),
        Err(TextError::KeyLengthError)
    ));
    assert!(matches!(
        Ed2519Signer::try_new(&[0u8; 33]),
        Err(TextError::KeyLengthError)
    ));
    assert!(matches!(
        Ed2519Verify::try_new(&[0u8; 10]),
        Err(TextError::KeyLengthError)
    ));
    assert_eq!(
        process_text_sign(b"x", &[0u8; 33], TextSignFormat::Ed2519),
        Err(TextError::KeyLengthError)
    );
}

#[test]
fn test_ed25519_invalid_public_key_is_construction_error() {
    let sig = encode_signature(&[0u8; 64]);
    let mut found = false;
    for i in 0..=255u8 {
        let key = vec![i; 32];
        match process_text_verify(b"x", &key, TextSignFormat::Ed2519, &sig) {
            Err(TextError::CryptoConstructionError) => {
                assert!(matches!(
                    Ed2519Verify::try_new(&key),
                    Err(TextError::CryptoConstructionError)
                ));
                found = true;
            }
            Ok(_) => {}
            other => panic!("unexpected outcome: {:?}", other),
        }
    }
    assert!(found);
}

#[test]
fn test_blake3_generate_bundle() {
    let bundle = process_generate(TextSignFormat::Blake3).unwrap();
    assert_eq!(bundle.len(), 1);
    assert_eq!(bundle[0].len(), 32);
    for b in &bundle[0] {
        assert!(b.is_ascii_graphic());
    }
    let other = process_generate(TextSignFormat::Blake3).unwrap();
    assert_ne!(bundle[0], other[0]);
}

#[test]
fn test_generated_blake3_key_signs_and_verifies() {
    let bundle = process_generate(TextSignFormat::Blake3).unwrap();
    let signed = process_text_sign(b"round trip", &bundle[0], TextSignFormat::Blake3).unwrap();
    let verified = process_text_verify(b"round trip", &bundle[0], TextSignFormat::Blake3, &signed);
    assert_eq!(verified, Ok(true));
}
