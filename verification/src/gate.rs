//! The authentication gate: admits a request only when its signature header
//! carries the expected algorithm prefix and a valid HMAC digest of the body.

use crate::signature::{spec_valid_signature, verify};
use vstd::prelude::*;
use vstd::slice::slice_subrange;

verus! {

/// The declared algorithm prefix of the signature header: the ASCII bytes of
/// `sha1=`.
pub open spec fn spec_sig_prefix() -> Seq<u8> {
    seq![115u8, 104u8, 97u8, 49u8, 61u8]
}

/// A request is admitted exactly when the signature header is present, starts
/// with the `sha1=` prefix, and the rest of the header is a valid hex
/// HMAC-SHA1 digest of the raw body under the secret.
pub open spec fn spec_admitted(header: Option<Seq<u8>>, body: Seq<u8>, secret: Seq<u8>) -> bool {
    match header {
        Option::None => false,
        Option::Some(h) => h.len() >= 5 && h.subrange(0, 5) == spec_sig_prefix()
            && spec_valid_signature(h.skip(5), body, secret),
    }
}

/// The view of an optional header value.
pub open spec fn spec_header(header: Option<&[u8]>) -> Option<Seq<u8>> {
    match header {
        Option::None => Option::None,
        Option::Some(h) => Option::Some(h@),
    }
}

/// Returns the `sha1=` prefix as bytes.
pub fn sig_prefix() -> (r: Vec<u8>)
    ensures
        r@ == spec_sig_prefix(),
{
    let mut r: Vec<u8> = Vec::new();
    r.push(115);
    r.push(104);
    r.push(97);
    r.push(49);
    r.push(61);
    assert(r@ =~= spec_sig_prefix());
    r
}

/// Decides admission for one request from the signature header value (if the
/// header was present), the raw body, and the shared secret. A missing
/// header, a header without the `sha1=` prefix, and a wrong digest are all
/// rejected alike.
#[verifier::loop_isolation(false)]
pub fn authenticate(header: Option<&[u8]>, body: &[u8], secret: &[u8]) -> (r: bool)
    ensures
        r == spec_admitted(spec_header(header), body@, secret@),
{
    match header {
        Option::None => false,
        Option::Some(h) => {
            if h.len() < 5 {
                return false;
            }
            let prefix = sig_prefix();
            let mut i: usize = 0;
            while i < 5
                invariant
                    h@.len() >= 5,
                    i <= 5,
                    prefix@ == spec_sig_prefix(),
                    forall|j: int| 0 <= j < i ==> h@[j] == spec_sig_prefix()[j],
                decreases 5 - i,
            {
                if h[i] != prefix[i] {
                    assert(h@.subrange(0, 5)[i as int] != spec_sig_prefix()[i as int]);
                    return false;
                }
                i = i + 1;
            }
            assert(h@.subrange(0, 5) =~= spec_sig_prefix());
            let sig = slice_subrange(h, 5, h.len());
            assert(sig@ =~= h@.skip(5));
            verify(sig, body, secret)
        },
    }
}

} // verus!
