//! Decoding of a push event: a permissive JSON reader that extracts the `ref`
//! field of the top-level object and ignores every other member.
//!
//! The reader is deliberately forgiving about the members it skips (it does
//! not check that brackets match by kind, and it does not validate skipped
//! scalars), but the member it extracts must be a well-formed JSON string;
//! the accepted escapes are the two-character ones, so a `\u` escape in the
//! ref is rejected. A body whose top level is not an object, or whose top
//! object has no `ref` string member, is malformed.

use vstd::prelude::*;
use vstd::slice::slice_subrange;

verus! {

/// JSON insignificant whitespace.
pub open spec fn is_ws(c: u8) -> bool {
    c == 32 || c == 9 || c == 10 || c == 13
}

/// A byte that ends an unquoted scalar value: whitespace, `,`, `}` or `]`.
pub open spec fn is_scalar_end(c: u8) -> bool {
    is_ws(c) || c == 44 || c == 125 || c == 93
}

/// The first position at or after `i` that does not hold whitespace.
pub open spec fn skip_ws(s: Seq<u8>, i: int) -> int
    decreases s.len() - i,
{
    if 0 <= i < s.len() && is_ws(s[i]) {
        skip_ws(s, i + 1)
    } else {
        i
    }
}

pub proof fn lemma_skip_ws(s: Seq<u8>, i: int)
    ensures
        skip_ws(s, i) >= i,
        i <= s.len() ==> skip_ws(s, i) <= s.len(),
        0 <= skip_ws(s, i) < s.len() ==> !is_ws(s[skip_ws(s, i)]),
    decreases s.len() - i,
{
    if 0 <= i < s.len() && is_ws(s[i]) {
        lemma_skip_ws(s, i + 1);
    }
}

/// Scans a quoted string's content from `i` (just after the opening quote);
/// returns the position just after the closing quote. A backslash escapes the
/// byte after it. `None` when the string never closes.
pub open spec fn skip_string(s: Seq<u8>, i: int) -> Option<int>
    decreases s.len() - i,
{
    if !(0 <= i < s.len()) {
        None
    } else if s[i] == 34 {
        Some(i + 1)
    } else if s[i] == 92 {
        if i + 1 < s.len() {
            skip_string(s, i + 2)
        } else {
            None
        }
    } else {
        skip_string(s, i + 1)
    }
}

pub proof fn lemma_skip_string(s: Seq<u8>, i: int)
    ensures
        skip_string(s, i) matches Some(j) ==> i < j <= s.len(),
    decreases s.len() - i,
{
    if 0 <= i < s.len() {
        if s[i] == 92 {
            if i + 1 < s.len() {
                lemma_skip_string(s, i + 2);
            }
        } else if s[i] != 34 {
            lemma_skip_string(s, i + 1);
        }
    }
}

/// The end of an unquoted scalar that starts at `i`: the first position at or
/// after `i` holding a scalar-ending byte.
pub open spec fn scan_scalar(s: Seq<u8>, i: int) -> int
    decreases s.len() - i,
{
    if 0 <= i < s.len() && !is_scalar_end(s[i]) {
        scan_scalar(s, i + 1)
    } else {
        i
    }
}

pub proof fn lemma_scan_scalar(s: Seq<u8>, i: int)
    ensures
        scan_scalar(s, i) >= i,
        i <= s.len() ==> scan_scalar(s, i) <= s.len(),
        0 <= i < s.len() && !is_scalar_end(s[i]) ==> scan_scalar(s, i) > i,
    decreases s.len() - i,
{
    if 0 <= i < s.len() && !is_scalar_end(s[i]) {
        lemma_scan_scalar(s, i + 1);
    }
}

/// Scans past the remainder of a compound value that was entered with `d`
/// open brackets, treating `{` and `[` alike (and `}` and `]` alike) and
/// stepping over quoted strings; returns the position just after the bracket
/// that closes the value. `None` when the input ends first.
pub open spec fn scan_depth(s: Seq<u8>, i: int, d: int) -> Option<int>
    decreases s.len() - i,
    when i >= 0
    via scan_depth_decreases
{
    if i >= s.len() {
        None
    } else if s[i] == 34 {
        match skip_string(s, i + 1) {
            None => None,
            Some(j) => scan_depth(s, j, d),
        }
    } else if s[i] == 123 || s[i] == 91 {
        scan_depth(s, i + 1, d + 1)
    } else if s[i] == 125 || s[i] == 93 {
        if d == 1 {
            Some(i + 1)
        } else {
            scan_depth(s, i + 1, d - 1)
        }
    } else {
        scan_depth(s, i + 1, d)
    }
}

#[via_fn]
proof fn scan_depth_decreases(s: Seq<u8>, i: int, d: int) {
    lemma_skip_string(s, i + 1);
}

pub proof fn lemma_scan_depth(s: Seq<u8>, i: int, d: int)
    requires
        i >= 0,
    ensures
        scan_depth(s, i, d) matches Some(j) ==> i < j <= s.len(),
    decreases s.len() - i,
{
    if i < s.len() {
        if s[i] == 34 {
            lemma_skip_string(s, i + 1);
            match skip_string(s, i + 1) {
                None => {},
                Some(j) => lemma_scan_depth(s, j, d),
            }
        } else if s[i] == 123 || s[i] == 91 {
            lemma_scan_depth(s, i + 1, d + 1);
        } else if s[i] == 125 || s[i] == 93 {
            if d != 1 {
                lemma_scan_depth(s, i + 1, d - 1);
            }
        } else {
            lemma_scan_depth(s, i + 1, d);
        }
    }
}

/// Scans past one JSON value that starts at `i` (a position that must not
/// hold whitespace); returns the position just after the value.
pub open spec fn skip_value(s: Seq<u8>, i: int) -> Option<int> {
    if !(0 <= i < s.len()) {
        None
    } else if s[i] == 34 {
        skip_string(s, i + 1)
    } else if s[i] == 123 || s[i] == 91 {
        scan_depth(s, i + 1, 1)
    } else if is_scalar_end(s[i]) {
        None
    } else {
        Some(scan_scalar(s, i))
    }
}

pub proof fn lemma_skip_value(s: Seq<u8>, i: int)
    ensures
        skip_value(s, i) matches Some(j) ==> i < j <= s.len(),
{
    if 0 <= i < s.len() {
        lemma_skip_string(s, i + 1);
        lemma_scan_depth(s, i + 1, 1);
        lemma_scan_scalar(s, i);
    }
}

/// The replacement byte of a two-character escape, `None` for an escape the
/// reader does not accept.
pub open spec fn unescape_char(c: u8) -> Option<u8> {
    if c == 34 {
        Some(34u8)
    } else if c == 92 {
        Some(92u8)
    } else if c == 47 {
        Some(47u8)
    } else if c == 110 {
        Some(10u8)
    } else if c == 116 {
        Some(9u8)
    } else if c == 114 {
        Some(13u8)
    } else if c == 98 {
        Some(8u8)
    } else if c == 102 {
        Some(12u8)
    } else {
        None
    }
}

/// The unescaped content of a string body read from position `i` on.
pub open spec fn unescape_from(raw: Seq<u8>, i: int) -> Option<Seq<u8>>
    decreases raw.len() - i,
{
    if !(0 <= i <= raw.len()) {
        None
    } else if i == raw.len() {
        Some(Seq::empty())
    } else if raw[i] == 92 {
        if i + 1 >= raw.len() {
            None
        } else {
            match unescape_char(raw[i + 1]) {
                None => None,
                Some(c) => match unescape_from(raw, i + 2) {
                    None => None,
                    Some(t) => Some(seq![c] + t),
                },
            }
        }
    } else {
        match unescape_from(raw, i + 1) {
            None => None,
            Some(t) => Some(seq![raw[i]] + t),
        }
    }
}

/// The unescaped content of a whole string body.
pub open spec fn spec_unescape(raw: Seq<u8>) -> Option<Seq<u8>> {
    unescape_from(raw, 0)
}

/// The ASCII bytes of the member name `ref`.
pub open spec fn spec_key_ref() -> Seq<u8> {
    seq![114u8, 101u8, 102u8]
}

/// Walks the members of the top-level object from position `i` (just after
/// `{` or just after a member) until the member named `ref` is found; its
/// value must be a string, whose unescaped content is the result. `None` when
/// the object is malformed or ends without a `ref` member.
pub open spec fn obj_find_ref(s: Seq<u8>, i: int, first: bool) -> Option<Seq<u8>>
    decreases s.len() - i,
    when 0 <= i <= s.len()
    via obj_find_ref_decreases
{
    let j = skip_ws(s, i);
    if j >= s.len() || s[j] == 125 {
        None
    } else if !first && s[j] != 44 {
        None
    } else {
        let k = if first {
            j
        } else {
            skip_ws(s, j + 1)
        };
        if k >= s.len() || s[k] != 34 {
            None
        } else {
            match skip_string(s, k + 1) {
                None => None,
                Some(ke) => {
                    let m = skip_ws(s, ke);
                    if m >= s.len() || s[m] != 58 {
                        None
                    } else {
                        let v = skip_ws(s, m + 1);
                        if v >= s.len() {
                            None
                        } else if s.subrange(k + 1, ke - 1) == spec_key_ref() {
                            if s[v] != 34 {
                                None
                            } else {
                                match skip_string(s, v + 1) {
                                    None => None,
                                    Some(ve) => spec_unescape(s.subrange(v + 1, ve - 1)),
                                }
                            }
                        } else {
                            match skip_value(s, v) {
                                None => None,
                                Some(w) => obj_find_ref(s, w, false),
                            }
                        }
                    }
                },
            }
        }
    }
}

#[via_fn]
proof fn obj_find_ref_decreases(s: Seq<u8>, i: int, first: bool) {
    let j = skip_ws(s, i);
    lemma_skip_ws(s, i);
    if j < s.len() {
        let k = if first {
            j
        } else {
            skip_ws(s, j + 1)
        };
        lemma_skip_ws(s, j + 1);
        if 0 <= k < s.len() {
            lemma_skip_string(s, k + 1);
            match skip_string(s, k + 1) {
                None => {},
                Some(ke) => {
                    let m = skip_ws(s, ke);
                    lemma_skip_ws(s, ke);
                    let v = skip_ws(s, m + 1);
                    lemma_skip_ws(s, m + 1);
                    lemma_skip_value(s, v);
                },
            }
        }
    }
}

/// The decoded `ref` of a push-event body: the body must be a top-level JSON
/// object with a string member named `ref`.
pub open spec fn spec_decode(body: Seq<u8>) -> Option<Seq<u8>> {
    let j = skip_ws(body, 0);
    if j < body.len() && body[j] == 123 {
        obj_find_ref(body, j + 1, true)
    } else {
        None
    }
}

/// A decoded push event: the git reference the event updates, as the bytes of
/// the decoded string.
pub struct PushEvent {
    pub reference: Vec<u8>,
}

/// The event body could not be decoded.
#[derive(PartialEq, Eq, Structural)]
pub struct ParseError;

fn skip_ws_x(s: &[u8], i: usize) -> (r: usize)
    requires
        i <= s@.len(),
    ensures
        r == skip_ws(s@, i as int),
        i <= r <= s@.len(),
    decreases s@.len() - i,
{
    if i < s.len() {
        let c = s[i];
        if c == 32 || c == 9 || c == 10 || c == 13 {
            return skip_ws_x(s, i + 1);
        }
    }
    i
}

fn skip_string_x(s: &[u8], i: usize) -> (r: Option<usize>)
    requires
        i <= s@.len(),
    ensures
        match r {
            Some(j) => skip_string(s@, i as int) == Some(j as int) && i < j <= s@.len(),
            None => skip_string(s@, i as int) is None,
        },
    decreases s@.len() - i,
{
    if i >= s.len() {
        return None;
    }
    let c = s[i];
    if c == 34 {
        Some(i + 1)
    } else if c == 92 {
        if i + 1 < s.len() {
            skip_string_x(s, i + 2)
        } else {
            None
        }
    } else {
        skip_string_x(s, i + 1)
    }
}

fn scan_scalar_x(s: &[u8], i: usize) -> (r: usize)
    requires
        i <= s@.len(),
    ensures
        r == scan_scalar(s@, i as int),
        i <= r <= s@.len(),
    decreases s@.len() - i,
{
    if i < s.len() {
        let c = s[i];
        if !(c == 32 || c == 9 || c == 10 || c == 13 || c == 44 || c == 125 || c == 93) {
            return scan_scalar_x(s, i + 1);
        }
    }
    i
}

fn scan_depth_x(s: &[u8], i: usize, d: usize) -> (r: Option<usize>)
    requires
        i <= s@.len(),
        1 <= d <= i,
    ensures
        match r {
            Some(j) => scan_depth(s@, i as int, d as int) == Some(j as int) && i < j <= s@.len(),
            None => scan_depth(s@, i as int, d as int) is None,
        },
    decreases s@.len() - i,
{
    if i >= s.len() {
        return None;
    }
    let c = s[i];
    if c == 34 {
        match skip_string_x(s, i + 1) {
            None => None,
            Some(j) => scan_depth_x(s, j, d),
        }
    } else if c == 123 || c == 91 {
        scan_depth_x(s, i + 1, d + 1)
    } else if c == 125 || c == 93 {
        if d == 1 {
            Some(i + 1)
        } else {
            scan_depth_x(s, i + 1, d - 1)
        }
    } else {
        scan_depth_x(s, i + 1, d)
    }
}

fn skip_value_x(s: &[u8], i: usize) -> (r: Option<usize>)
    requires
        i <= s@.len(),
    ensures
        match r {
            Some(j) => skip_value(s@, i as int) == Some(j as int) && i < j <= s@.len(),
            None => skip_value(s@, i as int) is None,
        },
{
    if i >= s.len() {
        return None;
    }
    let c = s[i];
    if c == 34 {
        skip_string_x(s, i + 1)
    } else if c == 123 || c == 91 {
        scan_depth_x(s, i + 1, 1)
    } else if c == 32 || c == 9 || c == 10 || c == 13 || c == 44 || c == 125 || c == 93 {
        None
    } else {
        proof {
            lemma_scan_scalar(s@, i as int);
        }
        Some(scan_scalar_x(s, i))
    }
}

fn unescape_from_x(raw: &[u8], i: usize, out: &mut Vec<u8>) -> (ok: bool)
    requires
        i <= raw@.len(),
    ensures
        match unescape_from(raw@, i as int) {
            Some(t) => ok && final(out)@ == old(out)@ + t,
            None => !ok,
        },
    decreases raw@.len() - i,
{
    if i == raw.len() {
        assert(out@ =~= out@ + Seq::<u8>::empty());
        return true;
    }
    let c = raw[i];
    if c == 92 {
        if i + 1 >= raw.len() {
            return false;
        }
        let e = raw[i + 1];
        let rep: u8 = if e == 34 {
            34
        } else if e == 92 {
            92
        } else if e == 47 {
            47
        } else if e == 110 {
            10
        } else if e == 116 {
            9
        } else if e == 114 {
            13
        } else if e == 98 {
            8
        } else if e == 102 {
            12
        } else {
            return false;
        };
        out.push(rep);
        let ok = unescape_from_x(raw, i + 2, out);
        proof {
            match unescape_from(raw@, i as int) {
                None => {},
                Some(t) => {
                    assert(out@ =~= old(out)@ + t);
                },
            }
        }
        ok
    } else {
        out.push(c);
        let ok = unescape_from_x(raw, i + 1, out);
        proof {
            match unescape_from(raw@, i as int) {
                None => {},
                Some(t) => {
                    assert(out@ =~= old(out)@ + t);
                },
            }
        }
        ok
    }
}

fn obj_find_ref_x(s: &[u8], i: usize, first: bool) -> (r: Option<Vec<u8>>)
    requires
        i <= s@.len(),
    ensures
        match r {
            Some(v) => obj_find_ref(s@, i as int, first) == Some(v@),
            None => obj_find_ref(s@, i as int, first) is None,
        },
    decreases s@.len() - i,
{
    let j = skip_ws_x(s, i);
    if j >= s.len() || s[j] == 125 {
        return None;
    }
    if !first && s[j] != 44 {
        return None;
    }
    let k = if first {
        j
    } else {
        skip_ws_x(s, j + 1)
    };
    if k >= s.len() || s[k] != 34 {
        return None;
    }
    let ke = match skip_string_x(s, k + 1) {
        None => {
            return None;
        },
        Some(ke) => ke,
    };
    let m = skip_ws_x(s, ke);
    if m >= s.len() || s[m] != 58 {
        return None;
    }
    let v = skip_ws_x(s, m + 1);
    if v >= s.len() {
        return None;
    }
    let key = slice_subrange(s, k + 1, ke - 1);
    if key.len() == 3 && key[0] == 114 && key[1] == 101 && key[2] == 102 {
        assert(s@.subrange(k + 1, ke - 1) =~= spec_key_ref());
        if s[v] != 34 {
            return None;
        }
        let ve = match skip_string_x(s, v + 1) {
            None => {
                return None;
            },
            Some(ve) => ve,
        };
        let raw = slice_subrange(s, v + 1, ve - 1);
        let mut out: Vec<u8> = Vec::new();
        if unescape_from_x(raw, 0, &mut out) {
            assert(raw@ == s@.subrange(v + 1, ve - 1));
            Some(out)
        } else {
            None
        }
    } else {
        assert(s@.subrange(k + 1, ke - 1) != spec_key_ref()) by {
            if s@.subrange(k + 1, ke - 1) == spec_key_ref() {
                assert(key@[0] == 114 && key@[1] == 101 && key@[2] == 102);
            }
        };
        let w = match skip_value_x(s, v) {
            None => {
                return None;
            },
            Some(w) => w,
        };
        obj_find_ref_x(s, w, false)
    }
}

/// Decodes an authenticated request body into the push event it carries:
/// `Ok` exactly when the body is a top-level JSON object with a string member
/// named `ref`, and then the event holds that member's decoded content.
pub fn decode(body: &[u8]) -> (r: Result<PushEvent, ParseError>)
    ensures
        match r {
            Ok(ev) => spec_decode(body@) == Some(ev.reference@),
            Err(_) => spec_decode(body@) is None,
        },
{
    let j = skip_ws_x(body, 0);
    if j < body.len() && body[j] == 123 {
        match obj_find_ref_x(body, j + 1, true) {
            Some(reference) => Ok(PushEvent { reference }),
            None => Err(ParseError),
        }
    } else {
        Err(ParseError)
    }
}

} // verus!
