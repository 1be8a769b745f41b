use hunter_bot::signature::{check_signature, sign, signature_text, verify};

#[test]
fn known_digest_of_the_message_authentication_code() {
    let signature = sign(b"Jefe", b"what do ya want for nothing?");
    assert_eq!(signature, Some("sha1=effcdf6ae5eb2fa2d27416d5f184df9c259a7c79".to_string()));
    let signature = sign(b"key", b"The quick brown fox jumps over the lazy dog");
    assert_eq!(signature, Some("sha1=de7c9b85b8b78aa6bc8a7a36f70a90701c9db4d9".to_string()));
}

#[test]
fn signature_of_the_empty_payload() {
    assert_eq!(
        sign(b"k", b""),
        Some("sha1=3a84a218ee6665209bb70e84525dd837645a1965".to_string())
    );
}

#[test]
fn empty_secret_gives_the_known_signature_or_none() {
    let signature = sign(b"", b"");
    assert!(
        signature.is_none()
            || signature == Some("sha1=fbdb1d1b18aa6c08324b7d64b71fb76370690e1d".to_string())
    );
    let verdict = verify(b"", b"", "sha1=fbdb1d1b18aa6c08324b7d64b71fb76370690e1d");
    assert!(verdict.is_none() || verdict == Some(true));
}

#[test]
fn own_signature_verifies() {
    let secret = b"12345678901234567890";
    let body = br#"{"action":"created"}"#;
    let header = sign(secret, body).unwrap();
    assert_eq!(verify(secret, body, &header), Some(true));
}

#[test]
fn known_signature_verifies() {
    assert_eq!(
        verify(
            b"Jefe",
            b"what do ya want for nothing?",
            "sha1=effcdf6ae5eb2fa2d27416d5f184df9c259a7c79"
        ),
        Some(true)
    );
}

#[test]
fn every_single_bit_change_of_the_body_is_rejected() {
    let secret = b"secret";
    let body = b"payload".to_vec();
    let header = sign(secret, &body).unwrap();
    for i in 0..body.len() {
        for bit in 0..8 {
            let mut altered = body.clone();
            altered[i] ^= 1 << bit;
            assert_eq!(verify(secret, &altered, &header), Some(false));
        }
    }
}

#[test]
fn every_single_bit_change_of_the_header_is_rejected() {
    let secret = b"secret";
    let body = b"payload";
    let header = sign(secret, body).unwrap();
    let bytes = header.as_bytes().to_vec();
    for i in 0..bytes.len() {
        for bit in 0..7 {
            let mut altered = bytes.clone();
            altered[i] ^= 1 << bit;
            let altered = String::from_utf8(altered).unwrap();
            assert_eq!(verify(secret, body, &altered), Some(false), "{}", altered);
        }
    }
}

#[test]
fn malformed_headers_are_rejected() {
    let secret = b"secret";
    let body = b"payload";
    let header = sign(secret, body).unwrap();
    assert_eq!(verify(secret, body, ""), Some(false));
    assert_eq!(verify(secret, body, "sha1="), Some(false));
    assert_eq!(verify(secret, body, &header[5..]), Some(false));
    assert_eq!(verify(secret, body, &header.to_uppercase()), Some(false));
    assert_eq!(verify(secret, body, &format!("{} ", header)), Some(false));
    assert_eq!(verify(secret, body, &format!("sha256={}", &header[5..])), Some(false));
}

#[test]
fn another_secret_is_rejected() {
    let header = sign(b"secret", b"payload").unwrap();
    assert_eq!(verify(b"Secret", b"payload", &header), Some(false));
}

#[test]
fn signature_is_that_of_the_digest() {
    let digest = [0xde, 0x7c, 0x9b, 0x85, 0xb8, 0xb7, 0x8a, 0xa6, 0xbc, 0x8a, 0x7a, 0x36, 0xf7,
        0x0a, 0x90, 0x70, 0x1c, 0x9d, 0xb4, 0xd9];
    assert!(check_signature(&digest, "sha1=de7c9b85b8b78aa6bc8a7a36f70a90701c9db4d9"));
    assert!(!check_signature(&digest, "sha1=DE7C9B85B8B78AA6BC8A7A36F70A90701C9DB4D9"));
    assert!(!check_signature(&digest, "de7c9b85b8b78aa6bc8a7a36f70a90701c9db4d9"));
    assert!(!check_signature(&digest, "sha1=de7c9b85b8b78aa6bc8a7a36f70a90701c9db4d8"));
    assert!(check_signature(&[], "sha1="));
}

#[test]
fn signature_text_is_prefix_and_hexadecimal() {
    assert_eq!(signature_text(&[0xde, 0x7c, 0x00, 0xff]), "sha1=de7c00ff");
    assert_eq!(signature_text(&[]), "sha1=");
}
