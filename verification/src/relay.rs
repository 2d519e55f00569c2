//! The request pipeline up to the dispatch decision: the authentication gate
//! runs first, and only an admitted request reaches the decoder.

use crate::event::{decode, spec_decode, PushEvent};
use crate::gate::{authenticate, spec_admitted, spec_header};
use crate::response::ErrorKind;
use vstd::prelude::*;

verus! {

/// Authenticates one request and decodes its body. A request that fails
/// authentication — a missing header included — is answered as unauthorized
/// and its body is never decoded; an admitted request whose body does not
/// decode fails as an internal error, never as an authentication failure; an
/// admitted request with a well-formed body yields its push event.
pub fn handle_webhook(header: Option<&[u8]>, body: &[u8], secret: &[u8]) -> (r: Result<
    PushEvent,
    ErrorKind,
>)
    ensures
        !spec_admitted(spec_header(header), body@, secret@) ==> r == Err::<PushEvent, ErrorKind>(
            ErrorKind::Unauthorized,
        ),
        spec_admitted(spec_header(header), body@, secret@) && spec_decode(body@) is None ==> r
            == Err::<PushEvent, ErrorKind>(ErrorKind::InternalError),
        spec_admitted(spec_header(header), body@, secret@) ==> match spec_decode(body@) {
            Some(rf) => r matches Ok(ev) && ev.reference@ == rf,
            None => r is Err,
        },
{
    if !authenticate(header, body, secret) {
        return Err(ErrorKind::Unauthorized);
    }
    match decode(body) {
        Ok(ev) => Ok(ev),
        Err(_) => Err(ErrorKind::InternalError),
    }
}

} // verus!
