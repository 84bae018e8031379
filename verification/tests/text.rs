use rcli::process::text::{decode_signature, key_text_from_draws};
use base64::Engine;
use rcli::{
    process_text_generate, process_text_sign, process_text_verify, Blake3, Ed25519Signer,
    Ed25519Verifier, KeyGenerator, KeyLoader, ProcessError, TextSign, TextSignFormat, TextVerify,
};

const KEY_CHARS: &str = "ABCDEFGHJKLMNPQRSTUVWXYZabcdefghijkmnopqrstuvwxyz123456789!@#$%^&*_";

#[test]
fn test_ed25519_sign_verify() {
    let keys = process_text_generate(TextSignFormat::Ed25519).unwrap();
    let sk = Ed25519Signer::load(&keys[0]).unwrap();
    let pk = Ed25519Verifier::load(&keys[1]).unwrap();

    let data = b"hello world";
    let sig = sk.sign(&data[..]).unwrap();
    assert!(pk.verify(&data[..], &sig).unwrap());
}

#[test]
fn ed25519_signature_matches_the_library() {
    let secret = [7u8; 32];
    let expected = ed25519_dalek::Signer::sign(&ed25519_dalek::SigningKey::from_bytes(&secret), b"hi")
        .to_bytes()
        .to_vec();
    let signer = Ed25519Signer::new(secret);
    assert_eq!(signer.sign(b"hi").unwrap(), expected);
    let text = process_text_sign(b"hi", &secret, TextSignFormat::Ed25519).unwrap();
    assert_eq!(text, base64::prelude::BASE64_URL_SAFE_NO_PAD.encode(&expected));
}

#[test]
fn ed25519_sign_then_verify_through_the_commands() {
    let keys = process_text_generate(TextSignFormat::Ed25519).unwrap();
    assert_eq!(keys.len(), 2);
    assert_eq!(keys[0].len(), 32);
    assert_eq!(keys[1].len(), 32);
    let sig = process_text_sign(b"some text", &keys[0], TextSignFormat::Ed25519).unwrap();
    assert_eq!(
        process_text_verify(b"some text", &keys[1], TextSignFormat::Ed25519, &sig),
        Ok(true)
    );
    assert_eq!(
        process_text_verify(b"other text", &keys[1], TextSignFormat::Ed25519, &sig),
        Ok(false)
    );
}

#[test]
fn ed25519_rejects_short_signatures_and_bad_keys() {
    let keys = process_text_generate(TextSignFormat::Ed25519).unwrap();
    let short = base64::prelude::BASE64_URL_SAFE_NO_PAD.encode([1u8; 63]);
    assert_eq!(
        process_text_verify(b"x", &keys[1], TextSignFormat::Ed25519, &short),
        Err(ProcessError::InvalidSignatureLength)
    );
    let verifier = Ed25519Verifier::try_new(&keys[1]).unwrap();
    assert_eq!(verifier.verify(b"x", &[0u8; 65]), Err(ProcessError::InvalidSignatureLength));

    // find 32 bytes that are no curve point
    let mut bad = [0u8; 32];
    let mut found = false;
    for first in 2u8..=255 {
        bad[0] = first;
        if ed25519_dalek::VerifyingKey::from_bytes(&bad).is_err() {
            found = true;
            break;
        }
    }
    assert!(found);
    let sig = base64::prelude::BASE64_URL_SAFE_NO_PAD.encode([0u8; 64]);
    assert_eq!(
        process_text_verify(b"x", &bad, TextSignFormat::Ed25519, &sig),
        Err(ProcessError::InvalidVerifyingKey)
    );
    assert!(matches!(Ed25519Verifier::try_new(&bad), Err(ProcessError::InvalidVerifyingKey)));
}

#[test]
fn blake3_signature_is_the_keyed_hash() {
    let key = [42u8; 32];
    let expected = blake3::keyed_hash(&key, b"hello").as_bytes().to_vec();
    let signer = Blake3::new(key);
    assert_eq!(signer.sign(b"hello").unwrap(), expected);
    let text = process_text_sign(b"hello", &key, TextSignFormat::Blake3).unwrap();
    assert_eq!(text, base64::prelude::BASE64_URL_SAFE_NO_PAD.encode(&expected));
    assert_eq!(text.len(), 43);
}

#[test]
fn blake3_uses_the_first_32_bytes_of_the_key_file() {
    let mut file = vec![9u8; 32];
    file.extend_from_slice(b"\n trailing bytes");
    let a = process_text_sign(b"msg", &file, TextSignFormat::Blake3).unwrap();
    let b = process_text_sign(b"msg", &[9u8; 32], TextSignFormat::Blake3).unwrap();
    assert_eq!(a, b);
    assert_eq!(process_text_verify(b"msg", &file, TextSignFormat::Blake3, &a), Ok(true));
}

#[test]
fn blake3_verify_answers() {
    let key = [1u8; 32];
    let sig = process_text_sign(b"data", &key, TextSignFormat::Blake3).unwrap();
    assert_eq!(process_text_verify(b"data", &key, TextSignFormat::Blake3, &sig), Ok(true));
    assert_eq!(process_text_verify(b"Data", &key, TextSignFormat::Blake3, &sig), Ok(false));
    assert_eq!(process_text_verify(b"data", &[2u8; 32], TextSignFormat::Blake3, &sig), Ok(false));
    assert_eq!(
        process_text_verify(b"data", &key, TextSignFormat::Blake3, "not base64!"),
        Err(ProcessError::InvalidBase64)
    );
    // padding is not part of the signature text
    let padded = format!("{}=", sig);
    assert_eq!(
        process_text_verify(b"data", &key, TextSignFormat::Blake3, &padded),
        Err(ProcessError::InvalidBase64)
    );
    let signer = Blake3::try_new(&key).unwrap();
    assert_eq!(signer.verify(b"data", &[0u8; 31]), Ok(false));
}

#[test]
fn blake3_keys_are_32_key_characters() {
    let keys = Blake3::generate().unwrap();
    assert_eq!(keys.len(), 1);
    assert_eq!(keys[0].len(), 32);
    assert!(keys[0].iter().all(|b| KEY_CHARS.as_bytes().contains(b)));
    let keys = process_text_generate(TextSignFormat::Blake3).unwrap();
    assert_eq!(keys.len(), 1);
    let signer = Blake3::load(&keys[0]).unwrap();
    let sig = signer.sign(b"x").unwrap();
    assert!(signer.verify(b"x", &sig).unwrap());
}

#[test]
fn ed25519_generated_public_key_belongs_to_the_secret_key() {
    let keys = Ed25519Signer::generate().unwrap();
    let secret: [u8; 32] = keys[0].clone().try_into().unwrap();
    let public = ed25519_dalek::SigningKey::from_bytes(&secret).verifying_key().to_bytes();
    assert_eq!(keys[1], public.to_vec());
}

#[test]
fn key_text_follows_the_draws() {
    assert_eq!(key_text_from_draws(&[0, 1, 66, 67, 24, 49, 58]), b"AB_Aa1!".to_vec());
    assert_eq!(key_text_from_draws(&[]), Vec::<u8>::new());
    assert_eq!(key_text_from_draws(&[u32::MAX]), vec![KEY_CHARS.as_bytes()[(u32::MAX % 67) as usize]]);
}

#[test]
fn bad_signature_text_fails_before_the_key_is_used() {
    for sig in ["a", "ab=", "a+b/", "ab cd", "YWJj\n"] {
        assert_eq!(decode_signature(sig), Err(ProcessError::InvalidBase64));
        for format in [TextSignFormat::Blake3, TextSignFormat::Ed25519] {
            assert_eq!(
                process_text_verify(b"x", &[], format, sig),
                Err(ProcessError::InvalidBase64)
            );
        }
    }
    assert_eq!(decode_signature("YWJj").unwrap(), b"abc".to_vec());
}
