use crypto::mac::Mac;
use webhook_relay::gate::authenticate;
use webhook_relay::hex::{bytes_to_hex, hex_bytes};
use webhook_relay::signature::{is_valid_signature, verify};

/// The signature header for `body` under `secret`, in the form `authenticate`
/// expects.
fn sign_header(secret: &[u8], body: &[u8]) -> Vec<u8> {
    let mut mac = crypto::hmac::Hmac::new(crypto::sha1::Sha1::new(), secret);
    mac.input(body);
    let result = mac.result();
    let hex = bytes_to_hex(result.code().to_vec());
    let mut h = b"sha1=".to_vec();
    h.extend_from_slice(hex.as_bytes());
    h
}

#[test]
fn test_is_valid_signature() {
    let signature = "51633b546c869c7de65ce2f44d0c5eb49c0e5101";
    let body = "hello_world";
    let secret = "SUPERS3CR3T";

    assert!(is_valid_signature(signature, body, secret));
}

#[test]
fn test_is_valid_signature_rejects_wrong_secret() {
    let signature = "51633b546c869c7de65ce2f44d0c5eb49c0e5101";
    assert!(!is_valid_signature(signature, "hello_world", "SUPERS3CR3_"));
}

#[test]
fn test_verify_matches_computed_digest() {
    // The signature computed over the body under the secret always verifies;
    // the digest must come out of the HMAC computation, not out of thin air.
    let secret = b"some shared secret";
    let body = b"{\"ref\":\"refs/heads/master\"}";
    let header = sign_header(secret, body);
    assert!(verify(&header[5..], body, secret));
    assert_ne!(&header[5..], body);
}

#[test]
fn test_verify_rejects_any_single_character_change() {
    let good = b"51633b546c869c7de65ce2f44d0c5eb49c0e5101".to_vec();
    assert!(verify(&good, b"hello_world", b"SUPERS3CR3T"));
    for i in 0..good.len() {
        let mut bad = good.clone();
        bad[i] = if bad[i] == b'0' { b'1' } else { b'0' };
        assert!(!verify(&bad, b"hello_world", b"SUPERS3CR3T"));
    }
}

#[test]
fn test_verify_rejects_wrong_length() {
    assert!(!verify(b"51633b", b"hello_world", b"SUPERS3CR3T"));
    assert!(!verify(b"", b"hello_world", b"SUPERS3CR3T"));
}

#[test]
fn test_bytes_to_hex() {
    assert_eq!(bytes_to_hex(vec![]), "");
    assert_eq!(bytes_to_hex(vec![0x00, 0x0f, 0xa0, 0xff]), "000fa0ff");
    assert_eq!(bytes_to_hex(vec![0x51, 0x63, 0x3b]), "51633b");
}

#[test]
fn test_hex_bytes() {
    assert_eq!(hex_bytes(&[0x00, 0x0f, 0xa0, 0xff]), b"000fa0ff".to_vec());
}

#[test]
fn test_verify_sig_middleware() {
    // A request whose header carries the digest of the body under the secret
    // is admitted.
    let secret = b"SUPERS3CR3T";
    let body = b"hello_world";
    let header = sign_header(secret, body);
    assert_eq!(&header[..5], b"sha1=");
    assert!(authenticate(Some(&header), body, secret));
}

#[test]
fn test_gate_rejects_missing_header() {
    assert!(!authenticate(None, b"hello_world", b"SUPERS3CR3T"));
}

#[test]
fn test_gate_rejects_wrong_prefix() {
    let secret = b"SUPERS3CR3T";
    let body = b"hello_world";
    let mut header = sign_header(secret, body);
    header[0] = b'S';
    assert!(!authenticate(Some(&header), body, secret));
    assert!(!authenticate(Some(b"sha1"), body, secret));
    assert!(!authenticate(Some(b""), body, secret));
}

#[test]
fn test_gate_end_to_end_signature() {
    // secret SUPERS3CR3T, body hello_world: the well-known signature is
    // admitted, and rejected after any single character changes.
    let secret = b"SUPERS3CR3T";
    let body = b"hello_world";
    let good = b"sha1=51633b546c869c7de65ce2f44d0c5eb49c0e5101".to_vec();
    assert!(authenticate(Some(&good), body, secret));
    for i in 0..good.len() {
        let mut bad = good.clone();
        bad[i] = if bad[i] == b'x' { b'y' } else { b'x' };
        assert!(!authenticate(Some(&bad), body, secret));
    }
}
