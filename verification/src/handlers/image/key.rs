//! Object keys taken from a request path.
//!
//! A key is percent-decoded, must be UTF-8, loses its leading slashes, and is
//! refused when it is empty, too long, holds control characters or
//! backslashes, or has empty, `.` or `..` segments.
use vstd::prelude::*;
use vstd::utf8::{decode_utf8, encode_utf8, valid_utf8};
use crate::text::{chars_of, split, utf8_len_at_most, split_spec, string_of, trim_start_set, trim_start_spec, views, TrimSet};

verus! {

/// The longest key, in bytes.
pub const MAX_OBJECT_KEY_LEN: usize = 1024;

/// An ASCII hex digit, in either case.
pub open spec fn is_hex_byte(b: u8) -> bool {
    (48 <= b && b <= 57) || (65 <= b && b <= 70) || (97 <= b && b <= 102)
}

/// The value of an ASCII hex digit.
pub open spec fn hex_byte_value(b: u8) -> int {
    if b <= 57 {
        b - 48
    } else if b <= 70 {
        b - 55
    } else {
        b - 87
    }
}

/// Percent-decoding: each `%` followed by two hex digits stands for the byte
/// they write; every other byte stands for itself.
pub open spec fn percent_decode_spec(bytes: Seq<u8>) -> Seq<u8>
    decreases bytes.len(),
{
    if bytes.len() == 0 {
        Seq::empty()
    } else if bytes[0] == 37 && bytes.len() >= 3 && is_hex_byte(bytes[1]) && is_hex_byte(bytes[2]) {
        seq![(hex_byte_value(bytes[1]) * 16 + hex_byte_value(bytes[2])) as u8]
            + percent_decode_spec(bytes.skip(3))
    } else {
        seq![bytes[0]] + percent_decode_spec(bytes.skip(1))
    }
}

/// The bytes that a raw key decodes to.
pub open spec fn decoded_bytes(raw: Seq<char>) -> Seq<u8> {
    percent_decode_spec(encode_utf8(raw))
}

/// `percent_encoding::percent_decode_str(raw).decode_utf8()`, owned.
///
/// The crate replaces each `%` followed by two hex digits (either case) with
/// the byte they write, keeps every other byte, and decodes the result as
/// UTF-8, failing when it is not; the contract states exactly that.
#[verifier::external_body]
fn percent_decode_utf8(raw: &str) -> (res: Option<String>)
    ensures
        match res {
            Some(s) => valid_utf8(decoded_bytes(raw@)) && s@ == decode_utf8(decoded_bytes(raw@)),
            None => !valid_utf8(decoded_bytes(raw@)),
        },
{
    percent_encoding::percent_decode_str(raw).decode_utf8().ok().map(|c| c.into_owned())
}

/// `char::is_control`: the general category Cc, U+0000 to U+001F and U+007F
/// to U+009F.
pub open spec fn is_control(c: char) -> bool {
    let v = c as u32;
    v <= 0x1f || (0x7f <= v && v <= 0x9f)
}

/// A character a key may not hold.
pub open spec fn is_disallowed(c: char) -> bool {
    is_control(c) || c == '\\'
}

/// A path segment a key may not have.
pub open spec fn is_invalid_segment(seg: Seq<char>) -> bool {
    seg.len() == 0 || seg == seq!['.'] || seg == seq!['.', '.']
}

/// Whether the key holds a disallowed character.
pub open spec fn has_disallowed(key: Seq<char>) -> bool {
    exists|i: int| 0 <= i < key.len() && is_disallowed(#[trigger] key[i])
}

/// Whether a `/`-separated segment of the key is invalid.
pub open spec fn has_invalid_segment(key: Seq<char>) -> bool {
    exists|j: int|
        0 <= j < split_spec(key, '/').len() && is_invalid_segment(#[trigger] split_spec(key, '/')[j])
}

/// The key a raw path gives, or the message that says why it is refused.
pub open spec fn object_key_spec(raw: Seq<char>) -> Result<Seq<char>, Seq<char>> {
    let bytes = decoded_bytes(raw);
    if !valid_utf8(bytes) {
        Err("object key is not valid UTF-8"@)
    } else {
        let key = trim_start_spec(TrimSet::Char('/'), decode_utf8(bytes));
        if key.len() == 0 {
            Err("object key cannot be empty"@)
        } else if encode_utf8(key).len() > MAX_OBJECT_KEY_LEN {
            Err("object key is too long (max 1024 bytes)"@)
        } else if has_disallowed(key) {
            Err("object key contains disallowed characters"@)
        } else if has_invalid_segment(key) {
            Err("object key contains invalid path segments"@)
        } else {
            Ok(key)
        }
    }
}

fn disallowed(c: char) -> (res: bool)
    ensures
        res == is_disallowed(c),
{
    let v = c as u32;
    v <= 0x1f || (0x7f <= v && v <= 0x9f) || c == '\\'
}

fn invalid_segment(seg: &[char]) -> (res: bool)
    ensures
        res == is_invalid_segment(seg@),
{
    if seg.len() == 0 {
        return true;
    }
    if seg.len() == 1 {
        let r = seg[0] == '.';
        assert(r ==> seg@ =~= seq!['.']);
        return r;
    }
    if seg.len() == 2 {
        let r = seg[0] == '.' && seg[1] == '.';
        assert(r ==> seg@ =~= seq!['.', '.']);
        return r;
    }
    false
}

/// Decodes and validates the object key of a request path.
pub fn decode_and_validate_object_key(raw: &str) -> (res: Result<String, String>)
    ensures
        match res {
            Ok(k) => object_key_spec(raw@) == Ok::<Seq<char>, Seq<char>>(k@),
            Err(e) => object_key_spec(raw@) == Err::<Seq<char>, Seq<char>>(e@),
        },
{
    let decoded = match percent_decode_utf8(raw) {
        Some(d) => d,
        None => {
            return Err("object key is not valid UTF-8".to_owned());
        },
    };
    let chars = chars_of(decoded.as_str());
    let key_chars = trim_start_set(TrimSet::Char('/'), chars.as_slice());
    if key_chars.len() == 0 {
        return Err("object key cannot be empty".to_owned());
    }
    let key = string_of(key_chars.as_slice());
    if !utf8_len_at_most(key_chars.as_slice(), MAX_OBJECT_KEY_LEN) {
        return Err("object key is too long (max 1024 bytes)".to_owned());
    }
    let ghost k = trim_start_spec(TrimSet::Char('/'), decode_utf8(decoded_bytes(raw@)));
    assert(key_chars@ == k);
    assert(key@ == k);
    let mut i: usize = 0;
    while i < key_chars.len()
        invariant
            i <= key_chars@.len(),
            key_chars@ == k,
            k == trim_start_spec(TrimSet::Char('/'), decode_utf8(decoded_bytes(raw@))),
            valid_utf8(decoded_bytes(raw@)),
            k.len() > 0,
            encode_utf8(k).len() <= MAX_OBJECT_KEY_LEN,
            forall|k: int| 0 <= k < i ==> !is_disallowed(#[trigger] key_chars@[k]),
        decreases key_chars.len() - i,
    {
        if disallowed(key_chars[i]) {
            assert(is_disallowed(k[i as int]));
            return Err("object key contains disallowed characters".to_owned());
        }
        i = i + 1;
    }
    let segments = split(key_chars.as_slice(), '/');
    let mut j: usize = 0;
    while j < segments.len()
        invariant
            j <= segments@.len(),
            key_chars@ == k,
            k == trim_start_spec(TrimSet::Char('/'), decode_utf8(decoded_bytes(raw@))),
            key@ == k,
            valid_utf8(decoded_bytes(raw@)),
            k.len() > 0,
            encode_utf8(k).len() <= MAX_OBJECT_KEY_LEN,
            forall|m: int| 0 <= m < k.len() ==> !is_disallowed(#[trigger] k[m]),
            views(segments@) == split_spec(key_chars@, '/'),
            forall|k: int| 0 <= k < j ==> !is_invalid_segment(#[trigger] split_spec(key_chars@, '/')[k]),
        decreases segments.len() - j,
    {
        assert(views(segments@)[j as int] == segments@[j as int]@);
        if invalid_segment(segments[j].as_slice()) {
            assert(is_invalid_segment(split_spec(k, '/')[j as int]));
            return Err("object key contains invalid path segments".to_owned());
        }
        j = j + 1;
    }
    Ok(key)
}

} // verus!
