//! The response formatter: maps an outcome or a failure onto a status code
//! and a uniform JSON body of the shape `{"message": ...}`.

use crate::bytesutil::append_bytes;
use crate::hex::spec_hex_digit;
use vstd::prelude::*;
use vstd::utf8::encode_utf8;

verus! {

/// The failure kinds a request can end in.
#[derive(PartialEq, Eq, Structural, Clone, Copy, Debug)]
pub enum ErrorKind {
    /// The request did not authenticate: the same signal whatever the cause.
    Unauthorized,
    /// The request failed after authentication: a parse or dispatch failure.
    InternalError,
}

/// How a byte of a message is written inside a JSON string: the quote and the
/// backslash get a two-character escape, the named control characters their
/// short escapes, other control bytes the `\u00..` form, and every other byte
/// stands as itself.
pub open spec fn spec_escape_byte(c: u8) -> Seq<u8> {
    if c == 34 {
        seq![92u8, 34u8]
    } else if c == 92 {
        seq![92u8, 92u8]
    } else if c == 10 {
        seq![92u8, 110u8]
    } else if c == 9 {
        seq![92u8, 116u8]
    } else if c == 13 {
        seq![92u8, 114u8]
    } else if c == 8 {
        seq![92u8, 98u8]
    } else if c == 12 {
        seq![92u8, 102u8]
    } else if c < 32 {
        seq![92u8, 117u8, 48u8, 48u8, spec_hex_digit((c / 16) as u8), spec_hex_digit((c % 16) as u8)]
    } else {
        seq![c]
    }
}

/// The JSON escaping of a message from position `i` on.
pub open spec fn escape_from(bs: Seq<u8>, i: int) -> Seq<u8>
    decreases bs.len() - i,
{
    if !(0 <= i < bs.len()) {
        Seq::empty()
    } else {
        spec_escape_byte(bs[i]) + escape_from(bs, i + 1)
    }
}

/// The JSON escaping of a whole message.
pub open spec fn spec_escape(bs: Seq<u8>) -> Seq<u8> {
    escape_from(bs, 0)
}

fn push_escaped_byte(out: &mut Vec<u8>, c: u8)
    ensures
        final(out)@ == old(out)@ + spec_escape_byte(c),
{
    if c == 34 {
        out.push(92);
        out.push(34);
    } else if c == 92 {
        out.push(92);
        out.push(92);
    } else if c == 10 {
        out.push(92);
        out.push(110);
    } else if c == 9 {
        out.push(92);
        out.push(116);
    } else if c == 13 {
        out.push(92);
        out.push(114);
    } else if c == 8 {
        out.push(92);
        out.push(98);
    } else if c == 12 {
        out.push(92);
        out.push(102);
    } else if c < 32 {
        out.push(92);
        out.push(117);
        out.push(48);
        out.push(48);
        out.push(if c / 16 < 10 {
            48 + c / 16
        } else {
            87 + c / 16
        });
        out.push(if c % 16 < 10 {
            48 + c % 16
        } else {
            87 + c % 16
        });
    } else {
        out.push(c);
    }
    assert(out@ =~= old(out)@ + spec_escape_byte(c));
}

/// Appends the JSON escaping of `bs` onto `out`.
pub fn append_escaped(out: &mut Vec<u8>, bs: &[u8])
    ensures
        final(out)@ == old(out)@ + spec_escape(bs@),
{
    let mut i: usize = 0;
    while i < bs.len()
        invariant
            i <= bs@.len(),
            out@ + escape_from(bs@, i as int) == old(out)@ + spec_escape(bs@),
        decreases bs@.len() - i,
    {
        let ghost pre = out@;
        push_escaped_byte(out, bs[i]);
        proof {
            assert(pre + escape_from(bs@, i as int) == pre + (spec_escape_byte(bs@[i as int])
                + escape_from(bs@, i + 1)));
            assert(pre + (spec_escape_byte(bs@[i as int]) + escape_from(bs@, i + 1)) =~= (pre
                + spec_escape_byte(bs@[i as int])) + escape_from(bs@, i + 1));
        }
        i = i + 1;
    }
    assert(out@ + escape_from(bs@, i as int) =~= out@);
}

/// The uniform JSON body that carries a message.
pub open spec fn spec_json_message(msg: Seq<u8>) -> Seq<u8> {
    encode_utf8("{\"message\":\""@) + spec_escape(msg) + encode_utf8("\"}"@)
}

/// Encodes a message as the uniform JSON body `{"message": ...}`.
pub fn json_message(msg: &[u8]) -> (r: Vec<u8>)
    ensures
        r@ == spec_json_message(msg@),
{
    let mut out: Vec<u8> = Vec::new();
    append_bytes(&mut out, "{\"message\":\"".as_bytes());
    append_escaped(&mut out, msg);
    append_bytes(&mut out, "\"}".as_bytes());
    assert(out@ =~= spec_json_message(msg@));
    out
}

/// The externally visible result of one request: a message on success, or the
/// failure to report.
pub struct ServerMessage {
    pub message: Vec<u8>,
    pub e: Option<ErrorKind>,
}

/// The generic body text of an authentication failure.
pub open spec fn spec_unauthorized_text() -> Seq<u8> {
    encode_utf8("authentication failed"@)
}

/// The generic body text of an internal failure.
pub open spec fn spec_internal_error_text() -> Seq<u8> {
    encode_utf8("internal server error"@)
}

impl ServerMessage {
    /// A successful result carrying `message`.
    pub fn success(message: Vec<u8>) -> (r: ServerMessage)
        ensures
            r.message@ == message@,
            r.e is None,
    {
        ServerMessage { message, e: None }
    }

    /// A failed result; the message stays empty so that nothing internal can
    /// leak through it.
    pub fn error(e: ErrorKind) -> (r: ServerMessage)
        ensures
            r.message@.len() == 0,
            r.e == Some(e),
    {
        ServerMessage { message: Vec::new(), e: Some(e) }
    }

    /// Maps the result onto the outbound status code and JSON body: 200 with
    /// the carried message on success, 401 or 500 with a generic message on
    /// failure.
    pub fn respond_to(&self) -> (r: (u16, Vec<u8>))
        ensures
            self.e is None ==> r.0 == 200 && r.1@ == spec_json_message(self.message@),
            self.e == Some(ErrorKind::Unauthorized) ==> r.0 == 401 && r.1@ == spec_json_message(
                spec_unauthorized_text(),
            ),
            self.e == Some(ErrorKind::InternalError) ==> r.0 == 500 && r.1@ == spec_json_message(
                spec_internal_error_text(),
            ),
    {
        match self.e {
            None => (200, json_message(self.message.as_slice())),
            Some(ErrorKind::Unauthorized) => (401, json_message(
                "authentication failed".as_bytes(),
            )),
            Some(ErrorKind::InternalError) => (500, json_message(
                "internal server error".as_bytes(),
            )),
        }
    }
}

} // verus!
