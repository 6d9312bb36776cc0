//! Encodings of text for requests: percent-encoding, form encoding and JSON
//! strings, and lower case.
//!
//! The encoding itself is done by the crates `urlencoding`,
//! `serde_urlencoded` and `serde_json`, and by the standard library. What
//! each of them returns is stated here as a function of the text and is not
//! proved. The two serializers report failure in their types; on text they
//! have none, and the functions here say so.

use vstd::prelude::*;
use vstd::utf8::encode_utf8;

verus! {

/// The hexadecimal digit for `n`, for `0 <= n <= 15`, with `upper` saying
/// whether the letters are capitals.
pub open spec fn hex_digit(n: int, upper: bool) -> char {
    if n == 0 {
        '0'
    } else if n == 1 {
        '1'
    } else if n == 2 {
        '2'
    } else if n == 3 {
        '3'
    } else if n == 4 {
        '4'
    } else if n == 5 {
        '5'
    } else if n == 6 {
        '6'
    } else if n == 7 {
        '7'
    } else if n == 8 {
        '8'
    } else if n == 9 {
        '9'
    } else if n == 10 {
        if upper {
            'A'
        } else {
            'a'
        }
    } else if n == 11 {
        if upper {
            'B'
        } else {
            'b'
        }
    } else if n == 12 {
        if upper {
            'C'
        } else {
            'c'
        }
    } else if n == 13 {
        if upper {
            'D'
        } else {
            'd'
        }
    } else if n == 14 {
        if upper {
            'E'
        } else {
            'e'
        }
    } else {
        if upper {
            'F'
        } else {
            'f'
        }
    }
}

/// Whether `b` is an ASCII letter or digit.
pub open spec fn is_alphanumeric(b: u8) -> bool {
    (0x30 <= b <= 0x39) || (0x41 <= b <= 0x5a) || (0x61 <= b <= 0x7a)
}

/// A byte written as `%` and two capital hexadecimal digits.
pub open spec fn escaped_byte(b: u8) -> Seq<char> {
    seq!['%', hex_digit(b as int / 16, true), hex_digit(b as int % 16, true)]
}

/// One byte, percent-encoded: letters, digits and `-`, `.`, `_`, `~` stand
/// for themselves.
pub open spec fn percent_byte(b: u8) -> Seq<char> {
    if is_alphanumeric(b) || b == 0x2d || b == 0x2e || b == 0x5f || b == 0x7e {
        seq![b as char]
    } else {
        escaped_byte(b)
    }
}

/// One byte, form-encoded: letters, digits and `*`, `-`, `.`, `_` stand
/// for themselves, and a space becomes `+`.
pub open spec fn form_byte(b: u8) -> Seq<char> {
    if is_alphanumeric(b) || b == 0x2a || b == 0x2d || b == 0x2e || b == 0x5f {
        seq![b as char]
    } else if b == 0x20 {
        seq!['+']
    } else {
        escaped_byte(b)
    }
}

/// Bytes, percent-encoded one after the other.
pub open spec fn percent_bytes(bytes: Seq<u8>) -> Seq<char>
    decreases bytes.len(),
{
    if bytes.len() == 0 {
        Seq::empty()
    } else {
        percent_bytes(bytes.drop_last()) + percent_byte(bytes.last())
    }
}

/// Bytes, form-encoded one after the other.
pub open spec fn form_bytes(bytes: Seq<u8>) -> Seq<char>
    decreases bytes.len(),
{
    if bytes.len() == 0 {
        Seq::empty()
    } else {
        form_bytes(bytes.drop_last()) + form_byte(bytes.last())
    }
}

/// A text, percent-encoded: the bytes of its UTF-8 form, each
/// percent-encoded.
pub open spec fn percent_encoded(text: Seq<char>) -> Seq<char> {
    percent_bytes(encode_utf8(text))
}

/// The first `upto` pairs as a form: each pair as `name=value`, both
/// form-encoded from their UTF-8 bytes, with `&` between the pairs.
pub open spec fn form_text(pairs: Seq<(Seq<char>, Seq<char>)>, upto: int) -> Seq<char>
    decreases upto,
{
    if upto <= 0 {
        Seq::empty()
    } else {
        let pair = form_bytes(encode_utf8(pairs[upto - 1].0)) + seq!['='] + form_bytes(
            encode_utf8(pairs[upto - 1].1),
        );
        if upto == 1 {
            pair
        } else {
            form_text(pairs, upto - 1) + seq!['&'] + pair
        }
    }
}

/// One character inside a JSON string: `"` and `\` are escaped with a
/// backslash; backspace, tab, line feed, form feed and carriage return
/// become `\b`, `\t`, `\n`, `\f`, `\r`; every other character below U+0020
/// becomes `\u00` and two small hexadecimal digits; all others stand for
/// themselves.
pub open spec fn json_char(c: char) -> Seq<char> {
    let u = c as u32;
    if u == 0x22 {
        seq!['\\', '"']
    } else if u == 0x5c {
        seq!['\\', '\\']
    } else if u == 0x08 {
        seq!['\\', 'b']
    } else if u == 0x09 {
        seq!['\\', 't']
    } else if u == 0x0a {
        seq!['\\', 'n']
    } else if u == 0x0c {
        seq!['\\', 'f']
    } else if u == 0x0d {
        seq!['\\', 'r']
    } else if u < 0x20 {
        seq!['\\', 'u', '0', '0', hex_digit(u as int / 16, false), hex_digit(u as int % 16, false)]
    } else {
        seq![c]
    }
}

/// The characters of a JSON string, one after the other.
pub open spec fn json_chars(text: Seq<char>) -> Seq<char>
    decreases text.len(),
{
    if text.len() == 0 {
        Seq::empty()
    } else {
        json_chars(text.drop_last()) + json_char(text.last())
    }
}

/// A text as a JSON string, with its quotes.
pub open spec fn json_string(text: Seq<char>) -> Seq<char> {
    seq!['"'] + json_chars(text) + seq!['"']
}

/// The views of a sequence of pairs of strings.
pub open spec fn pair_views(pairs: Seq<(String, String)>) -> Seq<(Seq<char>, Seq<char>)> {
    Seq::new(pairs.len(), |i: int| (pairs[i].0@, pairs[i].1@))
}

/// `text` in lower case, as the standard library's `str::to_lowercase`
/// gives it: every character replaced by its Unicode lower-case mapping.
pub uninterp spec fn lowercase(text: Seq<char>) -> Seq<char>;

/// `urlencoding::encode`: percent-encodes every byte of `data` but the
/// ASCII letters and digits and `-`, `.`, `_`, `~`.
#[verifier::external_body]
pub(crate) fn percent_encode(data: &str) -> (r: String)
    ensures
        r@ == percent_encoded(data@),
{
    urlencoding::encode(data).into_owned()
}

/// `serde_urlencoded::to_string` on a sequence of pairs of strings: the
/// pairs in the `application/x-www-form-urlencoded` form. The serializer
/// refuses values of other shapes; for a sequence of pairs of strings it has
/// no failing path, so the result is always there.
#[verifier::external_body]
pub(crate) fn form_encode(pairs: &Vec<(String, String)>) -> (r: Option<String>)
    ensures
        r.deep_view() == Some(form_text(pair_views(pairs@), pairs@.len() as int)),
{
    serde_urlencoded::to_string(pairs).ok()
}

/// `serde_json::to_string` on a string slice: `text` as a JSON string. The
/// function fails only where a value refuses to be serialized or a map has
/// keys that are no strings; a string slice is neither, so the result is
/// always there.
#[verifier::external_body]
pub(crate) fn json_quote(text: &str) -> (r: Option<String>)
    ensures
        r.deep_view() == Some(json_string(text@)),
{
    serde_json::to_string(text).ok()
}

/// `str::to_lowercase`. The contract only names the answer.
#[verifier::external_body]
pub(crate) fn to_lowercase(text: &str) -> (r: String)
    ensures
        r@ == lowercase(text@),
{
    text.to_lowercase()
}

} // verus!
