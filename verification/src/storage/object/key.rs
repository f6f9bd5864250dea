//! Object keys, signed URLs and version tokens.
use vstd::prelude::*;
use vstd::utf8::encode_utf8;
use crate::text::{
    chars_of, contains, contains_sub, find, find_char, join, push_char, push_chars, push_str,
    replace, replace_all, split, split_spec, string_of, trim, trim_set, trim_spec, trim_ws,
    ends_with_char, views, TrimSet,
};

verus! {

/// Whether a byte is an ASCII letter or digit.
pub open spec fn is_ascii_alphanumeric(b: u8) -> bool {
    (48 <= b && b <= 57) || (65 <= b && b <= 90) || (97 <= b && b <= 122)
}

/// The upper-case hex digit for a value below sixteen.
pub open spec fn hex_char_upper(d: int) -> char {
    if d < 10 {
        ((d + 48) as u32) as char
    } else {
        ((d - 10 + 65) as u32) as char
    }
}

/// One byte percent-encoded against the set of all but ASCII letters and
/// digits: kept as it is when alphanumeric, else `%` and two upper-case hex digits.
pub open spec fn percent_encode_byte(b: u8) -> Seq<char> {
    if is_ascii_alphanumeric(b) {
        seq![(b as u32) as char]
    } else {
        seq!['%', hex_char_upper((b / 16) as int), hex_char_upper((b % 16) as int)]
    }
}

/// Bytes percent-encoded one by one.
pub open spec fn percent_encode(bytes: Seq<u8>) -> Seq<char>
    decreases bytes.len(),
{
    if bytes.len() == 0 {
        Seq::empty()
    } else {
        percent_encode(bytes.drop_last()) + percent_encode_byte(bytes.last())
    }
}

/// One path segment, percent-encoded from its UTF-8 bytes.
pub open spec fn encode_segment(segment: Seq<char>) -> Seq<char> {
    percent_encode(encode_utf8(segment))
}

/// An object key for a URL path: each `/`-separated segment encoded, the
/// separators kept.
pub open spec fn encode_key_spec(key: Seq<char>) -> Seq<char> {
    join(split_spec(key, '/').map_values(|seg: Seq<char>| encode_segment(seg)), '/')
}

/// `percent_encoding::utf8_percent_encode` with `NON_ALPHANUMERIC`, as a string.
///
/// The crate encodes each UTF-8 byte of the input that is not an ASCII letter
/// or digit as `%` followed by two upper-case hex digits and keeps the others;
/// the contract states exactly that.
#[verifier::external_body]
fn percent_encode_segment(segment: &str) -> (out: String)
    ensures
        out@ == encode_segment(segment@),
{
    percent_encoding::utf8_percent_encode(segment, percent_encoding::NON_ALPHANUMERIC).to_string()
}

/// Encodes an object key for a URL path, keeping the `/` separators.
pub fn encode_key_for_url_path(key: &str) -> (encoded: String)
    ensures
        encoded@ == encode_key_spec(key@),
{
    let chars = chars_of(key);
    let segments = split(chars.as_slice(), '/');
    let ghost pieces = split_spec(key@, '/').map_values(|seg: Seq<char>| encode_segment(seg));
    let mut encoded = String::new();
    let mut i: usize = 0;
    while i < segments.len()
        invariant
            i <= segments@.len(),
            views(segments@) == split_spec(key@, '/'),
            pieces == split_spec(key@, '/').map_values(|seg: Seq<char>| encode_segment(seg)),
            pieces.len() == segments@.len(),
            encoded@ == join(pieces.take(i as int), '/'),
        decreases segments.len() - i,
    {
        let ghost before = encoded@;
        if i > 0 {
            push_char(&mut encoded, '/');
        }
        let segment = string_of(segments[i].as_slice());
        assert(segment@ == views(segments@)[i as int]);
        let piece = percent_encode_segment(segment.as_str());
        push_str(&mut encoded, piece.as_str());
        proof {
            assert(pieces[i as int] == piece@);
            assert(pieces.take(i + 1).drop_last() =~= pieces.take(i as int));
            if i == 0 {
                assert(pieces.take(1) =~= seq![piece@]);
                assert(encoded@ =~= piece@);
            } else {
                assert(encoded@ =~= before.push('/') + piece@);
            }
        }
        i = i + 1;
    }
    assert(pieces.take(pieces.len() as int) =~= pieces);
    encoded
}

/// A version value without surrounding white space and double quotes.
pub open spec fn normalize_version_spec(value: Seq<char>) -> Seq<char> {
    trim_spec(TrimSet::Char('"'), trim_ws(value))
}

/// Trims white space, then double quotes, from a version value.
pub fn normalize_version_value(value: &str) -> (out: String)
    ensures
        out@ == normalize_version_spec(value@),
{
    let chars = chars_of(value);
    let trimmed = trim(chars.as_slice());
    let unquoted = trim_set(TrimSet::Char('"'), trimmed.as_slice());
    string_of(unquoted.as_slice())
}

/// The view of an optional string slice.
pub open spec fn opt_view(o: Option<&str>) -> Option<Seq<char>> {
    match o {
        Some(s) => Some(s@),
        None => None,
    }
}

/// The version token of an object: its version id, else its entity tag, both
/// normalized, else its last-modified time as given.
pub open spec fn version_spec(
    version_id: Option<Seq<char>>,
    etag: Option<Seq<char>>,
    last_modified: Option<Seq<char>>,
) -> Option<Seq<char>> {
    match version_id {
        Some(v) => Some(normalize_version_spec(v)),
        None => match etag {
            Some(e) => Some(normalize_version_spec(e)),
            None => last_modified,
        },
    }
}

/// Builds a version token from its parts: the version id, else the entity
/// tag, else the last-modified time.
pub fn version_from_parts(
    version_id: Option<&str>,
    etag: Option<&str>,
    last_modified: Option<String>,
) -> (token: Option<String>)
    ensures
        match token {
            Some(t) => version_spec(
                opt_view(version_id),
                opt_view(etag),
                match last_modified {
                    Some(l) => Some(l@),
                    None => None,
                },
            ) == Some(t@),
            None => version_spec(
                opt_view(version_id),
                opt_view(etag),
                match last_modified {
                    Some(l) => Some(l@),
                    None => None,
                },
            ) is None,
        },
{
    match version_id {
        Some(v) => Some(normalize_version_value(v)),
        None => match etag {
            Some(e) => Some(normalize_version_value(e)),
            None => last_modified,
        },
    }
}

/// Version identifiers read from the headers of a storage response, given the
/// values of `etag`, `x-amz-version-id` and `last-modified` that are valid
/// header strings: the version token (version id, else entity tag, else
/// last-modified time, each normalized) and the normalized entity tag.
pub fn extract_version_headers(
    etag: Option<&str>,
    version_id: Option<&str>,
    last_modified: Option<&str>,
) -> (res: (Option<String>, Option<String>))
    ensures
        match res.1 {
            Some(e) => etag.is_some() && normalize_version_spec(etag.unwrap()@) == e@,
            None => etag is None,
        },
        match res.0 {
            Some(t) => version_spec(
                opt_view(version_id),
                opt_view(etag),
                match last_modified {
                    Some(l) => Some(normalize_version_spec(l@)),
                    None => None,
                },
            ) == Some(t@),
            None => version_id is None && etag is None && last_modified is None,
        },
{
    let etag_norm = match etag {
        Some(e) => Some(normalize_version_value(e)),
        None => None,
    };
    let version_norm = match version_id {
        Some(v) => Some(normalize_version_value(v)),
        None => None,
    };
    let last_norm = match last_modified {
        Some(l) => Some(normalize_version_value(l)),
        None => None,
    };
    let token = match version_norm {
        Some(v) => Some(v),
        None => match &etag_norm {
            Some(e) => Some(e.clone()),
            None => last_norm,
        },
    };
    (token, etag_norm)
}

/// The separator between a URL base and the key: none when the base ends with `/`.
pub open spec fn path_separator(base: Seq<char>) -> Seq<char> {
    if ends_with_char(base, '/') {
        Seq::empty()
    } else {
        seq!['/']
    }
}

/// The signed URL of an object: the encoded key put in place of each
/// `{key}` of the template, or, without one, appended to the path of the
/// template before its query string.
pub open spec fn signed_url_spec(template: Seq<char>, key: Seq<char>) -> Seq<char> {
    let encoded = encode_key_spec(key);
    if contains_sub(template, "{key}"@) {
        replace_all(template, "{key}"@, encoded)
    } else {
        let q = find_char(template, '?');
        if q < template.len() {
            let base = template.take(q);
            base + path_separator(base) + encoded + seq!['?'] + template.skip(q + 1)
        } else {
            template + path_separator(template) + encoded
        }
    }
}

/// Builds the signed URL of an object from the URL template.
pub fn build_signed_url(template: &str, object_key: &str) -> (url: String)
    ensures
        url@ == signed_url_spec(template@, object_key@),
{
    let encoded = encode_key_for_url_path(object_key);
    let enc = chars_of(encoded.as_str());
    let t = chars_of(template);
    let placeholder = chars_of("{key}");
    proof {
        reveal_strlit("{key}");
    }
    if contains(t.as_slice(), placeholder.as_slice()) {
        let replaced = replace(t.as_slice(), placeholder.as_slice(), enc.as_slice());
        return string_of(replaced.as_slice());
    }
    let mut url = String::new();
    match find(t.as_slice(), '?') {
        Some(q) => {
            let n: usize = t.len();
            assert(q < n);
            let base = crate::text::copy_range(t.as_slice(), 0, q);
            let query = crate::text::copy_range(t.as_slice(), q + 1, t.len());
            push_chars(&mut url, base.as_slice());
            if !(q > 0 && t[q - 1] == '/') {
                push_char(&mut url, '/');
            }
            push_chars(&mut url, enc.as_slice());
            push_char(&mut url, '?');
            push_chars(&mut url, query.as_slice());
            proof {
                assert(base@ =~= t@.take(q as int));
                assert(query@ =~= t@.skip(q + 1));
            }
            assert(url@ =~= signed_url_spec(template@, object_key@));
        },
        None => {
            push_chars(&mut url, t.as_slice());
            if !(t.len() > 0 && t[t.len() - 1] == '/') {
                push_char(&mut url, '/');
            }
            push_chars(&mut url, enc.as_slice());
            assert(url@ =~= signed_url_spec(template@, object_key@));
        },
    }
    url
}

/// A key prefix without surrounding white space and slashes; `None` when
/// nothing is left.
pub open spec fn normalize_key_prefix_spec(value: Seq<char>) -> Option<Seq<char>> {
    let n = trim_spec(TrimSet::Char('/'), trim_ws(value));
    if n.len() == 0 {
        None
    } else {
        Some(n)
    }
}

/// Normalizes a key prefix by trimming white space, then slashes.
pub fn normalize_key_prefix(value: &str) -> (res: Option<String>)
    ensures
        match res {
            Some(p) => normalize_key_prefix_spec(value@) == Some(p@),
            None => normalize_key_prefix_spec(value@) is None,
        },
{
    let chars = chars_of(value);
    let trimmed = trim(chars.as_slice());
    let n = trim_set(TrimSet::Char('/'), trimmed.as_slice());
    if n.len() == 0 {
        None
    } else {
        Some(string_of(n.as_slice()))
    }
}

/// The key of an object in the store: the key prefix, a `/` and the key, or
/// the key alone without a prefix.
pub open spec fn storage_key_spec(prefix: Option<Seq<char>>, object_key: Seq<char>) -> Seq<char> {
    match prefix {
        Some(p) => p.push('/') + object_key,
        None => object_key,
    }
}

/// Applies the key prefix to an object key.
pub fn storage_key(prefix: &Option<String>, object_key: &str) -> (key: String)
    ensures
        key@ == storage_key_spec(
            match prefix {
                Some(p) => Some(p@),
                None => None,
            },
            object_key@,
        ),
{
    let mut key = String::new();
    match prefix {
        Some(p) => {
            push_str(&mut key, p.as_str());
            push_char(&mut key, '/');
            push_str(&mut key, object_key);
        },
        None => {
            push_str(&mut key, object_key);
        },
    }
    assert(key@ =~= storage_key_spec(
        match prefix {
            Some(p) => Some(p@),
            None => None,
        },
        object_key@,
    ));
    key
}

} // verus!
