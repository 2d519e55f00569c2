//! HMAC-SHA1 signature verification with a constant-time comparison.

use crate::hex::{hex_bytes, spec_hex_bytes};
use vstd::prelude::*;
use vstd::string::StringSliceAdditionalSpecFns;

verus! {

/// The HMAC-SHA1 digest of `msg` under the key `key`: a fixed function of the
/// two arguments, computed by the outside crate and left unspecified here.
pub uninterp spec fn spec_hmac_sha1(key: Seq<u8>, msg: Seq<u8>) -> Seq<u8>;

/// Relies on crypto::hmac::Hmac over crypto::sha1::Sha1 (through
/// crypto::mac::Mac): the digest depends on the key and the message alone,
/// and a SHA-1 digest is 20 bytes long.
#[verifier::external_body]
fn hmac_sha1(key: &[u8], msg: &[u8]) -> (r: Vec<u8>)
    ensures
        r@ == spec_hmac_sha1(key@, msg@),
        r@.len() == 20,
{
    let mut mac = crypto::hmac::Hmac::new(crypto::sha1::Sha1::new(), key);
    crypto::mac::Mac::input(&mut mac, msg);
    crypto::mac::Mac::result(&mut mac).code().to_vec()
}

/// Relies on crypto::util::fixed_time_eq: true exactly when the two byte
/// slices are equal, decided in a fixed number of operations so that timing
/// does not reveal where a mismatch sits. Its implementation reads a pointer
/// to the first byte of `a`, so `a` must not be empty.
#[verifier::external_body]
fn ct_eq(a: &[u8], b: &[u8]) -> (r: bool)
    requires
        a@.len() > 0,
    ensures
        r == (a@ == b@),
{
    crypto::util::fixed_time_eq(a, b)
}

/// A signature is valid exactly when it is the lowercase hex encoding of the
/// HMAC-SHA1 digest of the body under the secret.
pub open spec fn spec_valid_signature(signature: Seq<u8>, body: Seq<u8>, secret: Seq<u8>) -> bool {
    signature == spec_hex_bytes(spec_hmac_sha1(secret, body))
}

/// Decides whether `signature` is the hex HMAC-SHA1 digest of `body` under
/// `secret`. The comparison runs in constant time; a length mismatch is
/// decided without reading the signature bytes.
pub fn verify(signature: &[u8], body: &[u8], secret: &[u8]) -> (r: bool)
    ensures
        r == spec_valid_signature(signature@, body@, secret@),
{
    let digest = hmac_sha1(secret, body);
    let expected = hex_bytes(digest.as_slice());
    ct_eq(expected.as_slice(), signature)
}

/// Text-level form of `verify`, over the UTF-8 bytes of the three strings.
pub fn is_valid_signature(signature: &str, body: &str, secret: &str) -> (r: bool)
    ensures
        r == spec_valid_signature(signature.spec_bytes(), body.spec_bytes(), secret.spec_bytes()),
{
    verify(signature.as_bytes(), body.as_bytes(), secret.as_bytes())
}

/// Law: the hex HMAC-SHA1 digest of a body under a secret always verifies
/// against that body and secret.
pub proof fn lemma_correct_signature_verifies(body: Seq<u8>, secret: Seq<u8>)
    ensures
        spec_valid_signature(spec_hex_bytes(spec_hmac_sha1(secret, body)), body, secret),
{
}

/// Law: any signature that differs anywhere from the hex HMAC-SHA1 digest of
/// the body under the secret — a single flipped bit included — is rejected.
pub proof fn lemma_altered_signature_rejected(signature: Seq<u8>, body: Seq<u8>, secret: Seq<u8>)
    requires
        signature != spec_hex_bytes(spec_hmac_sha1(secret, body)),
    ensures
        !spec_valid_signature(signature, body, secret),
{
}

} // verus!
