//! The build dispatcher: decides from the decoded event whether a build is
//! triggered, describes the outbound trigger request, and words the result.

use crate::bytesutil::{append_bytes, ends_with, spec_ends_with};
use crate::event::PushEvent;
use crate::response::{append_escaped, spec_escape, ErrorKind, ServerMessage};
use vstd::prelude::*;
use vstd::utf8::encode_utf8;

verus! {

/// The suffix that triggers a build: the ASCII bytes of `master`. The match
/// is a deliberately loose suffix rule, so a branch such as
/// `feature/master` triggers too.
pub open spec fn spec_suffix_master() -> Seq<u8> {
    encode_utf8("master"@)
}

/// A build is triggered exactly when the event's reference ends with the
/// bytes of `master`.
pub open spec fn spec_should_dispatch(reference: Seq<u8>) -> bool {
    spec_ends_with(reference, spec_suffix_master())
}

/// The fixed description the trigger request carries.
pub open spec fn spec_trigger_message() -> Seq<u8> {
    encode_utf8("API Request triggered by zigbee2mqtt update"@)
}

/// The authorization header value: the word `token`, a space, and the token.
pub open spec fn spec_auth_str(token: Seq<u8>) -> Seq<u8> {
    encode_utf8("token "@) + token
}

/// The JSON body of the trigger request, over the fixed description and the
/// fixed branch name.
pub open spec fn spec_trigger_body(message: Seq<u8>, branch: Seq<u8>) -> Seq<u8> {
    encode_utf8("{\"message\":\""@) + spec_escape(message) + encode_utf8("\",\"branch\":\""@)
        + spec_escape(branch) + encode_utf8("\"}"@)
}

/// Everything the outbound trigger request consists of. Sending it is the
/// transport's affair; the fields say exactly what is sent.
pub struct TriggerRequest {
    /// The fixed trigger URL the request goes to.
    pub url: Vec<u8>,
    /// The provider API-version header value.
    pub api_version: u32,
    /// The authorization header value; holds the CI token.
    pub authorization: Vec<u8>,
    /// The content-type header value.
    pub content_type: Vec<u8>,
    /// The JSON body.
    pub body: Vec<u8>,
}

/// What a trigger request must hold, given the URL and token it was built
/// from.
pub open spec fn spec_trigger_request(t: TriggerRequest, url: Seq<u8>, token: Seq<u8>) -> bool {
    t.url@ == url && t.api_version == 3 && t.authorization@ == spec_auth_str(token)
        && t.content_type@ == encode_utf8("application/json"@) && t.body@ == spec_trigger_body(
        spec_trigger_message(),
        spec_suffix_master(),
    )
}

/// Builds the authorization header value from the CI token.
pub fn auth_str(token: &[u8]) -> (r: Vec<u8>)
    ensures
        r@ == spec_auth_str(token@),
{
    let mut r: Vec<u8> = Vec::new();
    append_bytes(&mut r, "token ".as_bytes());
    append_bytes(&mut r, token);
    r
}

/// Describes the outbound trigger request for the given URL and token: the
/// fixed description and the branch `master`, as JSON, with the provider
/// API-version header and the token-bearing authorization header.
pub fn travis_request(url: &[u8], token: &[u8]) -> (r: TriggerRequest)
    ensures
        spec_trigger_request(r, url@, token@),
{
    let mut body: Vec<u8> = Vec::new();
    append_bytes(&mut body, "{\"message\":\"".as_bytes());
    append_escaped(&mut body, "API Request triggered by zigbee2mqtt update".as_bytes());
    append_bytes(&mut body, "\",\"branch\":\"".as_bytes());
    append_escaped(&mut body, "master".as_bytes());
    append_bytes(&mut body, "\"}".as_bytes());
    assert(body@ =~= spec_trigger_body(spec_trigger_message(), spec_suffix_master()));
    let mut u: Vec<u8> = Vec::new();
    append_bytes(&mut u, url);
    assert(u@ =~= url@);
    let mut ct: Vec<u8> = Vec::new();
    append_bytes(&mut ct, "application/json".as_bytes());
    assert(ct@ =~= encode_utf8("application/json"@));
    TriggerRequest {
        url: u,
        api_version: 3,
        authorization: auth_str(token),
        content_type: ct,
        body,
    }
}

/// Decides from the decoded event whether a build is triggered: the outbound
/// request to send exactly when the event's reference ends with `master`, and
/// nothing — no call, no side effect — otherwise.
pub fn dispatch(event: &PushEvent, url: &[u8], token: &[u8]) -> (r: Option<TriggerRequest>)
    ensures
        r is Some <==> spec_should_dispatch(event.reference@),
        r matches Some(t) ==> spec_trigger_request(t, url@, token@),
{
    if ends_with(event.reference.as_slice(), "master".as_bytes()) {
        Some(travis_request(url, token))
    } else {
        None
    }
}

/// Law: a build is triggered if and only if the reference ends with the bytes
/// of `master`; in particular `refs/heads/master` and `refs/heads/not-master`
/// trigger, while `refs/heads/develop` and `refs/heads/masterful` do not.
pub proof fn lemma_dispatch_iff_master_suffix(reference: Seq<u8>)
    ensures
        spec_should_dispatch(reference) <==> (spec_suffix_master().len() <= reference.len()
            && reference.skip(reference.len() - spec_suffix_master().len())
            == spec_suffix_master()),
{
    if spec_suffix_master().len() <= reference.len() {
        assert(reference.skip(reference.len() - spec_suffix_master().len()) =~= reference.subrange(
            reference.len() - spec_suffix_master().len(),
            reference.len() as int,
        ));
    }
}

/// The message of a result whose build was triggered; it names the configured
/// trigger URL.
pub open spec fn spec_sent_message(travis_url: Seq<u8>) -> Seq<u8> {
    encode_utf8("PushEvent on branch master found, request sent to "@) + travis_url
}

/// The message of a result whose event was not for a master branch.
pub open spec fn spec_skipped_message() -> Seq<u8> {
    encode_utf8("PushEvent is not for master branch"@)
}

/// Words the result of one authenticated, decoded request. `call_ok` reports
/// the outbound call: it must be made — and is then reported `Some` — exactly
/// when the event's reference ends with `master`. A skipped event and a sent
/// trigger are successes; a failed call is an internal failure.
pub fn index(event: &PushEvent, call_ok: Option<bool>, travis_url: &[u8]) -> (r: ServerMessage)
    requires
        (call_ok is Some) == spec_should_dispatch(event.reference@),
    ensures
        !spec_should_dispatch(event.reference@) ==> r.e is None && r.message@
            == spec_skipped_message(),
        call_ok == Some(true) ==> r.e is None && r.message@ == spec_sent_message(travis_url@),
        call_ok == Some(false) ==> r.e == Some(ErrorKind::InternalError),
{
    match call_ok {
        None => {
            let mut m: Vec<u8> = Vec::new();
            append_bytes(&mut m, "PushEvent is not for master branch".as_bytes());
            ServerMessage::success(m)
        },
        Some(true) => {
            let mut m: Vec<u8> = Vec::new();
            append_bytes(&mut m, "PushEvent on branch master found, request sent to ".as_bytes());
            append_bytes(&mut m, travis_url);
            ServerMessage::success(m)
        },
        Some(false) => ServerMessage::error(ErrorKind::InternalError),
    }
}

} // verus!
