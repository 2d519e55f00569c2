//! Lowercase hexadecimal encoding of byte strings, as bytes and as text.

use vstd::prelude::*;
use vstd::string::StringExecFns;

verus! {

/// The ASCII code of the lowercase hex digit for a nibble.
pub open spec fn spec_hex_digit(n: u8) -> u8 {
    if n < 10 {
        (48 + n) as u8
    } else {
        (87 + n) as u8
    }
}

/// The lowercase hex digit for a nibble, as a character.
pub open spec fn spec_hex_char(n: u8) -> char {
    if n == 0 { '0' }
    else if n == 1 { '1' }
    else if n == 2 { '2' }
    else if n == 3 { '3' }
    else if n == 4 { '4' }
    else if n == 5 { '5' }
    else if n == 6 { '6' }
    else if n == 7 { '7' }
    else if n == 8 { '8' }
    else if n == 9 { '9' }
    else if n == 10 { 'a' }
    else if n == 11 { 'b' }
    else if n == 12 { 'c' }
    else if n == 13 { 'd' }
    else if n == 14 { 'e' }
    else { 'f' }
}

/// The lowercase hex encoding of a byte string, as ASCII bytes:
/// two digits per byte, high nibble first.
pub open spec fn spec_hex_bytes(bs: Seq<u8>) -> Seq<u8> {
    Seq::new(
        2 * bs.len(),
        (|i: int| if i % 2 == 0 {
            spec_hex_digit((bs[i / 2] / 16) as u8)
        } else {
            spec_hex_digit((bs[i / 2] % 16) as u8)
        }),
    )
}

/// The lowercase hex encoding of a byte string, as characters.
pub open spec fn spec_hex_chars(bs: Seq<u8>) -> Seq<char> {
    Seq::new(
        2 * bs.len(),
        (|i: int| if i % 2 == 0 {
            spec_hex_char((bs[i / 2] / 16) as u8)
        } else {
            spec_hex_char((bs[i / 2] % 16) as u8)
        }),
    )
}

/// Law: the text encoding and the byte encoding agree — the UTF-8 bytes of
/// the hex text of a byte string are exactly its hex bytes.
pub proof fn lemma_hex_text_bytes_agree(bs: Seq<u8>)
    ensures
        vstd::utf8::encode_utf8(spec_hex_chars(bs)) == spec_hex_bytes(bs),
{
    let chars = spec_hex_chars(bs);
    assert forall|i: int| 0 <= i < chars.len() implies '\0' <= #[trigger] chars[i] <= '\u{7f}'
        && chars[i] as u8 == spec_hex_bytes(bs)[i] by {
        let n: u8 = if i % 2 == 0 {
            (bs[i / 2] / 16) as u8
        } else {
            (bs[i / 2] % 16) as u8
        };
        assert(chars[i] == spec_hex_char(n) && spec_hex_bytes(bs)[i] == spec_hex_digit(n));
        assert(spec_hex_char(n) as u8 == spec_hex_digit(n) && '\0' <= spec_hex_char(n)
            <= '\u{7f}');
    }
    vstd::utf8::is_ascii_chars_encode_utf8(chars);
    assert(vstd::utf8::encode_utf8(chars) =~= spec_hex_bytes(bs));
}

fn hex_digit(n: u8) -> (r: u8)
    requires
        n < 16,
    ensures
        r == spec_hex_digit(n),
{
    if n < 10 {
        48 + n
    } else {
        87 + n
    }
}

fn hex_char_str(n: u8) -> (r: &'static str)
    requires
        n < 16,
    ensures
        r@ == seq![spec_hex_char(n)],
{
    proof {
        reveal_strlit("0");
        reveal_strlit("1");
        reveal_strlit("2");
        reveal_strlit("3");
        reveal_strlit("4");
        reveal_strlit("5");
        reveal_strlit("6");
        reveal_strlit("7");
        reveal_strlit("8");
        reveal_strlit("9");
        reveal_strlit("a");
        reveal_strlit("b");
        reveal_strlit("c");
        reveal_strlit("d");
        reveal_strlit("e");
        reveal_strlit("f");
    }
    match n {
        0 => "0",
        1 => "1",
        2 => "2",
        3 => "3",
        4 => "4",
        5 => "5",
        6 => "6",
        7 => "7",
        8 => "8",
        9 => "9",
        10 => "a",
        11 => "b",
        12 => "c",
        13 => "d",
        14 => "e",
        _ => "f",
    }
}

/// Encodes a byte string as lowercase hex, two ASCII bytes per input byte.
pub fn hex_bytes(bs: &[u8]) -> (r: Vec<u8>)
    ensures
        r@ == spec_hex_bytes(bs@),
{
    let mut r: Vec<u8> = Vec::new();
    let mut i: usize = 0;
    while i < bs.len()
        invariant
            i <= bs.len(),
            r@.len() == 2 * i,
            forall|j: int| 0 <= j < 2 * i ==> r@[j] == spec_hex_bytes(bs@)[j],
        decreases bs.len() - i,
    {
        let b = bs[i];
        r.push(hex_digit(b / 16));
        r.push(hex_digit(b % 16));
        i = i + 1;
    }
    assert(r@ =~= spec_hex_bytes(bs@));
    r
}

/// Encodes a byte string as a lowercase hex text string.
pub fn bytes_to_hex(bytes: Vec<u8>) -> (r: String)
    ensures
        r@ == spec_hex_chars(bytes@),
{
    let mut r = String::new();
    let mut i: usize = 0;
    while i < bytes.len()
        invariant
            i <= bytes.len(),
            r@.len() == 2 * i,
            forall|j: int| 0 <= j < 2 * i ==> r@[j] == spec_hex_chars(bytes@)[j],
        decreases bytes.len() - i,
    {
        let b = bytes[i];
        r.append(hex_char_str(b / 16));
        r.append(hex_char_str(b % 16));
        i = i + 1;
    }
    assert(r@ =~= spec_hex_chars(bytes@));
    r
}

} // verus!
