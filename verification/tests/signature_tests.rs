use hmac::Mac;

use artifact_builder::signature::hex_decode;
use artifact_builder::signature::parse_signature_header;
use artifact_builder::signature::verify_signature;
use artifact_builder::signature::SignatureDecision;

fn tag_of(secret: &[u8], body: &[u8]) -> Vec<u8> {
    let mut mac = hmac::Hmac::<sha2::Sha256>::new_from_slice(secret).unwrap();
    mac.update(body);
    mac.finalize().into_bytes().to_vec()
}

#[test]
fn hex_decode_exact_values() {
    assert_eq!(hex_decode(""), Some(vec![]));
    assert_eq!(hex_decode("00"), Some(vec![0]));
    assert_eq!(hex_decode("0aff"), Some(vec![10, 255]));
    assert_eq!(hex_decode("DEADbeef"), Some(vec![0xde, 0xad, 0xbe, 0xef]));
}

#[test]
fn hex_decode_rejects_odd_length_and_non_digits() {
    assert_eq!(hex_decode("f"), None);
    assert_eq!(hex_decode("abc"), None);
    assert_eq!(hex_decode("0g"), None);
    assert_eq!(hex_decode("zz"), None);
    assert_eq!(hex_decode("00 "), None);
}

#[test]
fn header_must_carry_the_prefix() {
    assert_eq!(parse_signature_header("sha256=00ff"), Some(vec![0, 255]));
    assert_eq!(parse_signature_header("sha256="), Some(vec![]));
    assert_eq!(parse_signature_header("00ff"), None);
    assert_eq!(parse_signature_header("sha1=00ff"), None);
    assert_eq!(parse_signature_header("sha256=xy"), None);
}

#[test]
fn verification_off_accepts_everything() {
    assert_eq!(verify_signature(false, b"secret", None, b"body"), SignatureDecision::Accept);
    assert_eq!(
        verify_signature(false, b"secret", Some("garbage"), b"body"),
        SignatureDecision::Accept
    );
}

#[test]
fn missing_and_malformed_headers_are_rejected() {
    assert_eq!(verify_signature(true, b"secret", None, b"body"), SignatureDecision::MissingHeader);
    assert_eq!(
        verify_signature(true, b"secret", Some("nonsense"), b"body"),
        SignatureDecision::MalformedHeader
    );
    assert_eq!(
        verify_signature(true, b"secret", Some("sha256=xyz"), b"body"),
        SignatureDecision::MalformedHeader
    );
}

#[test]
fn correct_signature_is_accepted() {
    let secret = b"it's a secret to everybody";
    let body = br#"{"ref":"refs/heads/master"}"#;
    let header = format!("sha256={}", hex::encode(tag_of(secret, body)));
    assert_eq!(
        verify_signature(true, secret, Some(header.as_str()), body),
        SignatureDecision::Accept
    );
}

#[test]
fn wrong_signature_is_unauthorized() {
    let secret = b"it's a secret to everybody";
    let body = br#"{"ref":"refs/heads/master"}"#;
    let mut tag = tag_of(secret, body);
    tag[0] ^= 1;
    let header = format!("sha256={}", hex::encode(tag));
    assert_eq!(
        verify_signature(true, secret, Some(header.as_str()), body),
        SignatureDecision::Unauthorized
    );
    // A signature of the right shape but for another secret is rejected too.
    let other = format!("sha256={}", hex::encode(tag_of(b"other", body)));
    assert_eq!(
        verify_signature(true, secret, Some(other.as_str()), body),
        SignatureDecision::Unauthorized
    );
    // A tag of the wrong length never authenticates.
    assert_eq!(
        verify_signature(true, secret, Some("sha256=0011"), body),
        SignatureDecision::Unauthorized
    );
}

#[test]
fn known_hmac_test_vector_authenticates() {
    // HMAC-SHA-256 with key "Jefe" over "what do ya want for nothing?".
    let header = "sha256=5bdcc146bf60754e6a042426089575c75a003f089d2739839dec58b964ec3843";
    assert_eq!(
        verify_signature(true, b"Jefe", Some(header), b"what do ya want for nothing?"),
        SignatureDecision::Accept
    );
}
