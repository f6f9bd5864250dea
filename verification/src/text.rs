//! Character-level text handling shared by the parsers and renderers.
//!
//! Strings are handled as sequences of `char`: the specifications speak of
//! `Seq<char>` views, the code works on `Vec<char>` copies.
use vstd::prelude::*;

verus! {

// ---------------------------------------------------------------------------
// Copying between strings and character vectors
// ---------------------------------------------------------------------------

/// Copies the characters of a string slice into a vector.
pub fn chars_of(s: &str) -> (out: Vec<char>)
    ensures
        out@ == s@,
{
    let n: usize = s.unicode_len();
    let mut out: Vec<char> = Vec::new();
    let mut i: usize = 0;
    while i < n
        invariant
            n == s@.len(),
            i <= n,
            out@ == s@.take(i as int),
        decreases n - i,
    {
        let c = s.get_char(i);
        out.push(c);
        i = i + 1;
        assert(out@ =~= s@.take(i as int));
    }
    assert(s@.take(n as int) =~= s@);
    out
}

/// Appends a character to a string (std's `String::push`).
#[verifier::external_body]
pub fn push_char(s: &mut String, c: char)
    ensures
        final(s)@ == old(s)@.push(c),
{
    s.push(c);
}

/// Appends every character of `chars` to `out`.
pub fn push_chars(out: &mut String, chars: &[char])
    ensures
        final(out)@ == old(out)@ + chars@,
{
    let ghost start = out@;
    let mut i: usize = 0;
    while i < chars.len()
        invariant
            i <= chars.len(),
            out@ == start + chars@.take(i as int),
        decreases chars.len() - i,
    {
        push_char(out, chars[i]);
        i = i + 1;
        assert(out@ =~= start + chars@.take(i as int));
    }
    assert(chars@.take(chars@.len() as int) =~= chars@);
}

/// Appends the characters of `s` to `out`.
pub fn push_str(out: &mut String, s: &str)
    ensures
        final(out)@ == old(out)@ + s@,
{
    let c = chars_of(s);
    push_chars(out, c.as_slice());
}

/// Builds a string from a sequence of characters.
pub fn string_of(chars: &[char]) -> (s: String)
    ensures
        s@ == chars@,
{
    let mut s = String::new();
    push_chars(&mut s, chars);
    assert(s@ =~= chars@);
    s
}

/// Copies the characters `lo..hi` of `s` into a new vector.
pub fn copy_range(s: &[char], lo: usize, hi: usize) -> (out: Vec<char>)
    requires
        lo <= hi <= s@.len(),
    ensures
        out@ == s@.subrange(lo as int, hi as int),
{
    let mut out: Vec<char> = Vec::new();
    let mut i: usize = lo;
    while i < hi
        invariant
            lo <= i <= hi,
            hi <= s@.len(),
            out@ == s@.subrange(lo as int, i as int),
        decreases hi - i,
    {
        out.push(s[i]);
        i = i + 1;
        assert(out@ =~= s@.subrange(lo as int, i as int));
    }
    out
}

/// Whether two character sequences are equal.
pub fn chars_eq(a: &[char], b: &[char]) -> (res: bool)
    ensures
        res == (a@ == b@),
{
    if a.len() != b.len() {
        return false;
    }
    let mut i: usize = 0;
    while i < a.len()
        invariant
            a@.len() == b@.len(),
            i <= a@.len(),
            forall|j: int| 0 <= j < i ==> a@[j] == b@[j],
        decreases a.len() - i,
    {
        if a[i] != b[i] {
            return false;
        }
        i = i + 1;
    }
    assert(a@ =~= b@);
    true
}

/// Whether the characters of `a` spell out the string `b`.
pub fn chars_eq_str(a: &[char], b: &str) -> (res: bool)
    ensures
        res == (a@ == b@),
{
    let bc = chars_of(b);
    chars_eq(a, bc.as_slice())
}

/// Whether two string slices hold the same characters.
pub fn str_eq(a: &str, b: &str) -> (res: bool)
    ensures
        res == (a@ == b@),
{
    let ac = chars_of(a);
    chars_eq_str(ac.as_slice(), b)
}

// ---------------------------------------------------------------------------
// Character classes
// ---------------------------------------------------------------------------

/// Unicode `White_Space`, the set that `char::is_whitespace` and `str::trim` use.
pub open spec fn is_ws(c: char) -> bool {
    let v = c as u32;
    ||| (0x09 <= v && v <= 0x0d)
    ||| v == 0x20
    ||| v == 0x85
    ||| v == 0xa0
    ||| v == 0x1680
    ||| (0x2000 <= v && v <= 0x200a)
    ||| v == 0x2028
    ||| v == 0x2029
    ||| v == 0x202f
    ||| v == 0x205f
    ||| v == 0x3000
}

/// Decides `is_ws`.
pub fn is_whitespace(c: char) -> (res: bool)
    ensures
        res == is_ws(c),
{
    let v: u32 = c as u32;
    (0x09 <= v && v <= 0x0d) || v == 0x20 || v == 0x85 || v == 0xa0 || v == 0x1680 || (0x2000
        <= v && v <= 0x200a) || v == 0x2028 || v == 0x2029 || v == 0x202f || v == 0x205f || v
        == 0x3000
}

/// True for the ASCII decimal digits `0`..=`9`.
pub open spec fn is_digit(c: char) -> bool {
    '0' <= c && c <= '9'
}

/// The value of an ASCII decimal digit.
pub open spec fn digit_value(c: char) -> int {
    (c as int) - ('0' as int)
}

/// ASCII upper-case letters map to lower case; every other character is kept.
pub open spec fn ascii_lower(c: char) -> char {
    if 'A' <= c && c <= 'Z' {
        ((c as u32) + 32) as char
    } else {
        c
    }
}

/// `str::to_ascii_lowercase` on a character sequence.
pub open spec fn lower_seq(s: Seq<char>) -> Seq<char> {
    s.map_values(|c: char| ascii_lower(c))
}

/// Lower-cases the ASCII letters of `s`.
pub fn to_ascii_lowercase(s: &[char]) -> (out: Vec<char>)
    ensures
        out@ == lower_seq(s@),
{
    let mut out: Vec<char> = Vec::new();
    let mut i: usize = 0;
    while i < s.len()
        invariant
            i <= s@.len(),
            out@ == lower_seq(s@.take(i as int)),
        decreases s.len() - i,
    {
        let c = s[i];
        let l = if 'A' <= c && c <= 'Z' {
            let v: u32 = (c as u32) + 32;
            assert(v <= 0x7f);
            char_from_ascii(v)
        } else {
            c
        };
        out.push(l);
        i = i + 1;
        assert(out@ =~= lower_seq(s@.take(i as int)));
    }
    assert(s@.take(s@.len() as int) =~= s@);
    out
}

/// The character with an ASCII code point.
pub fn char_from_ascii(v: u32) -> (c: char)
    requires
        v < 128,
    ensures
        c == v as char,
        c as u32 == v,
{
    let b: u8 = v as u8;
    b as char
}

// ---------------------------------------------------------------------------
// Trimming
// ---------------------------------------------------------------------------

/// A set of characters that a trim removes.
#[derive(Clone, Copy)]
pub enum TrimSet {
    /// Unicode white space, as `str::trim` removes it.
    Whitespace,
    /// One given character, as `str::trim_matches(c)` removes it.
    Char(char),
}

/// Whether the set holds `c`.
pub open spec fn in_set(set: TrimSet, c: char) -> bool {
    match set {
        TrimSet::Whitespace => is_ws(c),
        TrimSet::Char(d) => c == d,
    }
}

/// Decides `in_set`.
pub fn set_contains(set: TrimSet, c: char) -> (res: bool)
    ensures
        res == in_set(set, c),
{
    match set {
        TrimSet::Whitespace => is_whitespace(c),
        TrimSet::Char(d) => c == d,
    }
}

/// The index of the first character at or after `i` that is not in the set.
pub open spec fn first_kept_from(set: TrimSet, s: Seq<char>, i: int) -> int
    decreases s.len() - i,
{
    if i < 0 || i >= s.len() {
        s.len() as int
    } else if in_set(set, s[i]) {
        first_kept_from(set, s, i + 1)
    } else {
        i
    }
}

/// The end of `s.take(j)` after characters of the set are removed from its end.
pub open spec fn kept_end_to(set: TrimSet, s: Seq<char>, j: int) -> int
    decreases j,
{
    if j <= 0 || j > s.len() {
        0
    } else if in_set(set, s[j - 1]) {
        kept_end_to(set, s, j - 1)
    } else {
        j
    }
}

/// `s` without the characters of the set at its start.
pub open spec fn trim_start_spec(set: TrimSet, s: Seq<char>) -> Seq<char> {
    s.skip(first_kept_from(set, s, 0))
}

/// `s` without the characters of the set at its end.
pub open spec fn trim_end_spec(set: TrimSet, s: Seq<char>) -> Seq<char> {
    s.take(kept_end_to(set, s, s.len() as int))
}

/// `s` without the characters of the set at either end.
pub open spec fn trim_spec(set: TrimSet, s: Seq<char>) -> Seq<char> {
    trim_end_spec(set, trim_start_spec(set, s))
}

/// `str::trim`: white space removed at both ends.
pub open spec fn trim_ws(s: Seq<char>) -> Seq<char> {
    trim_spec(TrimSet::Whitespace, s)
}

proof fn lemma_first_kept_bounds(set: TrimSet, s: Seq<char>, i: int)
    requires
        0 <= i <= s.len(),
    ensures
        i <= first_kept_from(set, s, i) <= s.len(),
    decreases s.len() - i,
{
    if i < s.len() && in_set(set, s[i]) {
        lemma_first_kept_bounds(set, s, i + 1);
    }
}

proof fn lemma_kept_end_bounds(set: TrimSet, s: Seq<char>, j: int)
    requires
        0 <= j <= s.len(),
    ensures
        0 <= kept_end_to(set, s, j) <= j,
    decreases j,
{
    if j > 0 && in_set(set, s[j - 1]) {
        lemma_kept_end_bounds(set, s, j - 1);
    }
}

/// `s` with the characters of the set removed from its start.
pub fn trim_start_set(set: TrimSet, s: &[char]) -> (out: Vec<char>)
    ensures
        out@ == trim_start_spec(set, s@),
{
    let mut i: usize = 0;
    while i < s.len() && set_contains(set, s[i])
        invariant
            i <= s@.len(),
            first_kept_from(set, s@, 0) == first_kept_from(set, s@, i as int),
        decreases s.len() - i,
    {
        i = i + 1;
    }
    copy_range(s, i, s.len())
}

/// `s` with the characters of the set removed from its end.
pub fn trim_end_set(set: TrimSet, s: &[char]) -> (out: Vec<char>)
    ensures
        out@ == trim_end_spec(set, s@),
{
    let mut j: usize = s.len();
    while j > 0 && set_contains(set, s[j - 1])
        invariant
            j <= s@.len(),
            kept_end_to(set, s@, s@.len() as int) == kept_end_to(set, s@, j as int),
        decreases j,
    {
        j = j - 1;
    }
    let out = copy_range(s, 0, j);
    assert(out@ =~= s@.take(j as int));
    out
}

/// `s` with the characters of the set removed from both ends.
pub fn trim_set(set: TrimSet, s: &[char]) -> (out: Vec<char>)
    ensures
        out@ == trim_spec(set, s@),
{
    let t = trim_start_set(set, s);
    trim_end_set(set, t.as_slice())
}

/// `str::trim` on characters.
pub fn trim(s: &[char]) -> (out: Vec<char>)
    ensures
        out@ == trim_ws(s@),
{
    trim_set(TrimSet::Whitespace, s)
}

/// The index of the first white-space character at or after `i`, or the length.
pub open spec fn first_ws_from(s: Seq<char>, i: int) -> int
    decreases s.len() - i,
{
    if i < 0 || i >= s.len() {
        s.len() as int
    } else if is_ws(s[i]) {
        i
    } else {
        first_ws_from(s, i + 1)
    }
}

/// The first white-space separated word of `s` (`split_whitespace().next()`),
/// empty when `s` holds only white space.
pub open spec fn first_word(s: Seq<char>) -> Seq<char> {
    let t = trim_start_spec(TrimSet::Whitespace, s);
    t.take(first_ws_from(t, 0))
}

/// Takes the first white-space separated word of `s`.
pub fn first_word_of(s: &[char]) -> (w: Vec<char>)
    ensures
        w@ == first_word(s@),
{
    let t = trim_start_set(TrimSet::Whitespace, s);
    let mut j: usize = 0;
    while j < t.len() && !is_whitespace(t[j])
        invariant
            j <= t@.len(),
            first_ws_from(t@, 0) == first_ws_from(t@, j as int),
        decreases t.len() - j,
    {
        j = j + 1;
    }
    let w = copy_range(t.as_slice(), 0, j);
    assert(w@ =~= t@.take(j as int));
    w
}

// ---------------------------------------------------------------------------
// Searching and splitting
// ---------------------------------------------------------------------------

/// The index of the first `c` at or after `i`, or the length when there is none.
pub open spec fn find_from(s: Seq<char>, c: char, i: int) -> int
    decreases s.len() - i,
{
    if i < 0 || i >= s.len() {
        s.len() as int
    } else if s[i] == c {
        i
    } else {
        find_from(s, c, i + 1)
    }
}

/// The index of the first `c` in `s`, or its length.
pub open spec fn find_char(s: Seq<char>, c: char) -> int {
    find_from(s, c, 0)
}

pub proof fn lemma_find_from(s: Seq<char>, c: char, i: int)
    requires
        0 <= i <= s.len(),
    ensures
        i <= find_from(s, c, i) <= s.len(),
        find_from(s, c, i) < s.len() ==> s[find_from(s, c, i)] == c,
        forall|k: int| i <= k < find_from(s, c, i) ==> s[k] != c,
    decreases s.len() - i,
{
    if i < s.len() && s[i] != c {
        lemma_find_from(s, c, i + 1);
    }
}

/// Locates the first `c` in `s`.
pub fn find(s: &[char], c: char) -> (res: Option<usize>)
    ensures
        match res {
            Some(i) => i < s@.len() && i == find_char(s@, c),
            None => find_char(s@, c) == s@.len(),
        },
{
    let mut i: usize = 0;
    while i < s.len()
        invariant
            i <= s@.len(),
            find_char(s@, c) == find_from(s@, c, i as int),
        decreases s.len() - i,
    {
        if s[i] == c {
            return Some(i);
        }
        i = i + 1;
    }
    None
}

/// `str::split(c)`: the pieces between the occurrences of `c`, in order.
pub open spec fn split_spec(s: Seq<char>, c: char) -> Seq<Seq<char>>
    decreases s.len(),
{
    let i = find_char(s, c);
    if i >= s.len() || i < 0 {
        seq![s]
    } else {
        seq![s.take(i)] + split_spec(s.skip(i + 1), c)
    }
}

/// The views of a vector of character vectors.
pub open spec fn views(v: Seq<Vec<char>>) -> Seq<Seq<char>> {
    v.map_values(|x: Vec<char>| x@)
}

/// Splits `s` at every `c`.
pub fn split(s: &[char], c: char) -> (out: Vec<Vec<char>>)
    ensures
        views(out@) == split_spec(s@, c),
{
    let mut out: Vec<Vec<char>> = Vec::new();
    let mut start: usize = 0;
    let mut i: usize = 0;
    assert(s@.skip(0) =~= s@);
    assert(views(out@) + split_spec(s@, c) =~= split_spec(s@, c));
    while i < s.len()
        invariant
            start <= i <= s@.len(),
            forall|k: int| start <= k < i ==> s@[k] != c,
            views(out@) + split_spec(s@.skip(start as int), c) == split_spec(s@, c),
        decreases s.len() - i,
    {
        if s[i] == c {
            let ghost rest = s@.skip(start as int);
            let ghost k: int = (i - start) as int;
            proof {
                lemma_find_prefix_free(rest, c, 0, k);
                assert(find_char(rest, c) == k);
                assert(rest.skip(k + 1) =~= s@.skip(i + 1));
                assert(rest.take(k) =~= s@.subrange(start as int, i as int));
                assert(split_spec(rest, c) == seq![rest.take(k)] + split_spec(rest.skip(k + 1), c));
            }
            let piece = copy_range(s, start, i);
            let ghost before = out@;
            out.push(piece);
            proof {
                assert(views(out@) =~= views(before).push(piece@));
                assert(views(out@) + split_spec(s@.skip(i + 1), c) =~= views(before) + split_spec(rest, c));
            }
            start = i + 1;
        }
        i = i + 1;
    }
    let ghost rest = s@.skip(start as int);
    proof {
        lemma_find_prefix_free(rest, c, 0, rest.len() as int);
        assert(find_from(rest, c, rest.len() as int) == rest.len());
    }
    let piece = copy_range(s, start, s.len());
    assert(piece@ =~= rest);
    let ghost before = out@;
    out.push(piece);
    assert(views(out@) =~= views(before).push(piece@));
    assert(views(out@) =~= views(before) + seq![rest]);
    out
}

/// When `s[i..j]` holds no `c`, the search from `i` ends where the search from `j` ends.
pub proof fn lemma_find_prefix_free(s: Seq<char>, c: char, i: int, j: int)
    requires
        0 <= i <= j <= s.len(),
        forall|k: int| i <= k < j ==> s[k] != c,
    ensures
        find_from(s, c, i) == find_from(s, c, j),
    decreases j - i,
{
    if i < j {
        lemma_find_prefix_free(s, c, i + 1, j);
    }
}

// ---------------------------------------------------------------------------
// Prefixes and lines
// ---------------------------------------------------------------------------

/// `str::strip_prefix`: the rest of `s` after `p`, when `s` starts with `p`.
pub open spec fn strip_prefix_spec(s: Seq<char>, p: Seq<char>) -> Option<Seq<char>> {
    if p.len() <= s.len() && s.take(p.len() as int) == p {
        Some(s.skip(p.len() as int))
    } else {
        None
    }
}

/// Removes the prefix `p` from `s`.
pub fn strip_prefix(s: &[char], p: &[char]) -> (res: Option<Vec<char>>)
    ensures
        match res {
            Some(r) => strip_prefix_spec(s@, p@) == Some(r@),
            None => strip_prefix_spec(s@, p@) is None,
        },
{
    if p.len() > s.len() {
        return None;
    }
    let head = copy_range(s, 0, p.len());
    assert(head@ =~= s@.take(p@.len() as int));
    if !chars_eq(head.as_slice(), p) {
        return None;
    }
    let rest = copy_range(s, p.len(), s.len());
    assert(rest@ =~= s@.skip(p@.len() as int));
    Some(rest)
}

/// A line piece of `str::lines`: one trailing `\r` dropped.
pub open spec fn drop_cr(line: Seq<char>) -> Seq<char> {
    if line.len() > 0 && line.last() == '\r' {
        line.drop_last()
    } else {
        line
    }
}

/// `str::lines`: the pieces between `\n`s; every piece that a `\n` ends loses
/// one trailing `\r`, and an empty last piece is not a line.
pub open spec fn lines_spec(s: Seq<char>) -> Seq<Seq<char>>
    decreases s.len(),
{
    let i = find_char(s, '\n');
    if i >= s.len() || i < 0 {
        if s.len() == 0 {
            seq![]
        } else {
            seq![s]
        }
    } else {
        seq![drop_cr(s.take(i))] + lines_spec(s.skip(i + 1))
    }
}

/// Removes one trailing `\r`.
pub fn drop_trailing_cr(line: &[char]) -> (out: Vec<char>)
    ensures
        out@ == drop_cr(line@),
{
    if line.len() > 0 && line[line.len() - 1] == '\r' {
        let out = copy_range(line, 0, line.len() - 1);
        assert(out@ =~= line@.drop_last());
        out
    } else {
        copy_range(line, 0, line.len())
    }
}

/// Splits `s` into its lines.
pub fn lines(s: &[char]) -> (out: Vec<Vec<char>>)
    ensures
        views(out@) == lines_spec(s@),
{
    let mut out: Vec<Vec<char>> = Vec::new();
    let mut start: usize = 0;
    let mut i: usize = 0;
    assert(s@.skip(0) =~= s@);
    assert(views(out@) + lines_spec(s@) =~= lines_spec(s@));
    while i < s.len()
        invariant
            start <= i <= s@.len(),
            forall|k: int| start <= k < i ==> s@[k] != '\n',
            views(out@) + lines_spec(s@.skip(start as int)) == lines_spec(s@),
        decreases s.len() - i,
    {
        if s[i] == '\n' {
            let ghost rest = s@.skip(start as int);
            let ghost k: int = (i - start) as int;
            proof {
                lemma_find_prefix_free(rest, '\n', 0, k);
                assert(find_char(rest, '\n') == k);
                assert(rest.skip(k + 1) =~= s@.skip(i + 1));
                assert(rest.take(k) =~= s@.subrange(start as int, i as int));
            }
            let raw = copy_range(s, start, i);
            let piece = drop_trailing_cr(raw.as_slice());
            let ghost before = out@;
            out.push(piece);
            proof {
                assert(views(out@) =~= views(before).push(piece@));
                assert(views(out@) + lines_spec(s@.skip(i + 1)) =~= views(before) + lines_spec(
                    rest,
                ));
            }
            start = i + 1;
        }
        i = i + 1;
    }
    let ghost rest = s@.skip(start as int);
    proof {
        lemma_find_prefix_free(rest, '\n', 0, rest.len() as int);
    }
    if start < s.len() {
        let piece = copy_range(s, start, s.len());
        assert(piece@ =~= rest);
        let ghost before = out@;
        out.push(piece);
        assert(views(out@) =~= views(before).push(piece@));
        assert(views(out@) =~= views(before) + seq![rest]);
    } else {
        assert(views(out@) =~= views(out@) + lines_spec(rest));
    }
    out
}

// ---------------------------------------------------------------------------
// Decimal numbers
// ---------------------------------------------------------------------------

/// Every character of `s` is an ASCII decimal digit.
pub open spec fn all_digits(s: Seq<char>) -> bool {
    forall|i: int| 0 <= i < s.len() ==> #[trigger] is_digit(s[i])
}

/// The number that the digits of `s` write, most significant first.
pub open spec fn digits_value(s: Seq<char>) -> nat
    decreases s.len(),
{
    if s.len() == 0 {
        0
    } else {
        (digits_value(s.drop_last()) * 10 + digit_value(s.last())) as nat
    }
}

/// `s` without one leading `+`.
pub open spec fn unsigned_body(s: Seq<char>) -> Seq<char> {
    if s.len() > 0 && s[0] == '+' {
        s.drop_first()
    } else {
        s
    }
}

/// `str::parse` for an unsigned integer type whose largest value is `max`:
/// an optional `+`, then one or more ASCII digits whose value is at most `max`.
pub open spec fn parse_unsigned_spec(s: Seq<char>, max: int) -> Option<nat> {
    let body = unsigned_body(s);
    if body.len() > 0 && all_digits(body) && digits_value(body) <= max {
        Some(digits_value(body))
    } else {
        None
    }
}

/// `str::parse::<u32>`.
pub open spec fn parse_u32_spec(s: Seq<char>) -> Option<nat> {
    parse_unsigned_spec(s, u32::MAX as int)
}

/// `str::parse::<u64>`.
pub open spec fn parse_u64_spec(s: Seq<char>) -> Option<nat> {
    parse_unsigned_spec(s, u64::MAX as int)
}

/// `str::parse::<usize>`.
pub open spec fn parse_usize_spec(s: Seq<char>) -> Option<nat> {
    parse_unsigned_spec(s, usize::MAX as int)
}

/// `str::parse::<i32>`: an optional `+` or `-`, then one or more ASCII digits,
/// with the signed value inside the range of `i32`.
pub open spec fn parse_i32_spec(s: Seq<char>) -> Option<int> {
    if s.len() > 0 && s[0] == '-' {
        let body = s.drop_first();
        if body.len() > 0 && all_digits(body) && digits_value(body) <= 0x8000_0000 {
            Some(-(digits_value(body) as int))
        } else {
            None
        }
    } else {
        match parse_unsigned_spec(s, i32::MAX as int) {
            Some(v) => Some(v as int),
            None => None,
        }
    }
}

proof fn lemma_digits_value_take(s: Seq<char>, i: int)
    requires
        0 <= i < s.len(),
        is_digit(s[i]),
    ensures
        digits_value(s.take(i + 1)) == digits_value(s.take(i)) * 10 + digit_value(s[i]),
{
    assert(s.take(i + 1).drop_last() =~= s.take(i));
}

proof fn lemma_digits_value_monotone(s: Seq<char>, i: int, j: int)
    requires
        0 <= i <= j <= s.len(),
        all_digits(s),
    ensures
        digits_value(s.take(i)) <= digits_value(s.take(j)),
    decreases j - i,
{
    if i < j {
        lemma_digits_value_monotone(s, i, j - 1);
        lemma_digits_value_take(s, j - 1);
        assert(is_digit(s[j - 1]));
    }
}

/// The value of the digits of `s`, when all are digits and the value is at most `max`.
fn digits_within(s: &[char], max: u64) -> (res: Option<u64>)
    ensures
        match res {
            Some(v) => all_digits(s@) && v == digits_value(s@) && v <= max,
            None => !(all_digits(s@) && digits_value(s@) <= max),
        },
{
    let mut acc: u64 = 0;
    let mut i: usize = 0;
    assert(s@.take(0) =~= Seq::<char>::empty());
    while i < s.len()
        invariant
            i <= s@.len(),
            forall|k: int| 0 <= k < i ==> #[trigger] is_digit(s@[k]),
            acc == digits_value(s@.take(i as int)),
            acc <= max,
        decreases s.len() - i,
    {
        let c = s[i];
        if !('0' <= c && c <= '9') {
            assert(!is_digit(s@[i as int]));
            return None;
        }
        let d: u32 = (c as u32) - ('0' as u32);
        proof {
            lemma_digits_value_take(s@, i as int);
        }
        let wide: u128 = (acc as u128) * 10 + (d as u128);
        if wide > max as u128 {
            proof {
                assert(all_digits(s@) ==> digits_value(s@) >= wide) by {
                    if all_digits(s@) {
                        lemma_digits_value_monotone(s@, i + 1, s@.len() as int);
                        assert(s@.take(s@.len() as int) =~= s@);
                    }
                }
            }
            return None;
        }
        acc = wide as u64;
        i = i + 1;
    }
    assert(s@.take(s@.len() as int) =~= s@);
    Some(acc)
}

/// Parses an unsigned decimal number no larger than `max`, as `str::parse` does.
pub fn parse_unsigned(s: &[char], max: u64) -> (res: Option<u64>)
    ensures
        match res {
            Some(v) => parse_unsigned_spec(s@, max as int) == Some(v as nat),
            None => parse_unsigned_spec(s@, max as int) is None,
        },
{
    let body = if s.len() > 0 && s[0] == '+' {
        let b = copy_range(s, 1, s.len());
        assert(b@ =~= s@.drop_first());
        b
    } else {
        copy_range(s, 0, s.len())
    };
    assert(body@ =~= unsigned_body(s@));
    if body.len() == 0 {
        return None;
    }
    digits_within(body.as_slice(), max)
}

/// `str::parse::<u32>`.
pub fn parse_u32(s: &[char]) -> (res: Option<u32>)
    ensures
        match res {
            Some(v) => parse_u32_spec(s@) == Some(v as nat),
            None => parse_u32_spec(s@) is None,
        },
{
    match parse_unsigned(s, u32::MAX as u64) {
        Some(v) => Some(v as u32),
        None => None,
    }
}

/// `str::parse::<u64>`.
pub fn parse_u64(s: &[char]) -> (res: Option<u64>)
    ensures
        match res {
            Some(v) => parse_u64_spec(s@) == Some(v as nat),
            None => parse_u64_spec(s@) is None,
        },
{
    parse_unsigned(s, u64::MAX)
}

/// `str::parse::<usize>`.
pub fn parse_usize(s: &[char]) -> (res: Option<usize>)
    ensures
        match res {
            Some(v) => parse_usize_spec(s@) == Some(v as nat),
            None => parse_usize_spec(s@) is None,
        },
{
    match parse_unsigned(s, usize::MAX as u64) {
        Some(v) => Some(v as usize),
        None => None,
    }
}

/// `str::parse::<i32>`.
pub fn parse_i32(s: &[char]) -> (res: Option<i32>)
    ensures
        match res {
            Some(v) => parse_i32_spec(s@) == Some(v as int),
            None => parse_i32_spec(s@) is None,
        },
{
    if s.len() > 0 && s[0] == '-' {
        let body = copy_range(s, 1, s.len());
        assert(body@ =~= s@.drop_first());
        if body.len() == 0 {
            return None;
        }
        match digits_within(body.as_slice(), 0x8000_0000) {
            Some(v) => {
                let n: i64 = -(v as i64);
                Some(n as i32)
            },
            None => None,
        }
    } else {
        match parse_unsigned(s, i32::MAX as u64) {
            Some(v) => Some(v as i32),
            None => None,
        }
    }
}

/// The ASCII digit for a value below ten.
pub open spec fn digit_char(d: int) -> char {
    ((d + 48) as u32) as char
}

/// The decimal digits of `n`, without leading zeros (`0` for zero).
pub open spec fn decimal(n: nat) -> Seq<char>
    decreases n,
{
    if n < 10 {
        seq![digit_char(n as int)]
    } else {
        decimal(n / 10).push(digit_char((n % 10) as int))
    }
}

/// A signed number in decimal, with `-` before negative values.
pub open spec fn signed_decimal(n: int) -> Seq<char> {
    if n < 0 {
        seq!['-'] + decimal((-n) as nat)
    } else {
        decimal(n as nat)
    }
}

/// The decimal digits of `n` are digits, at least one, and they write `n`.
pub proof fn lemma_decimal_value(n: nat)
    ensures
        all_digits(decimal(n)),
        decimal(n).len() >= 1,
        digits_value(decimal(n)) == n,
    decreases n,
{
    let s = decimal(n);
    if n < 10 {
        assert(s.drop_last() =~= Seq::<char>::empty());
        assert(digit_char(n as int) as int == n + 48);
        assert(digits_value(s) == digits_value(s.drop_last()) * 10 + digit_value(s.last()));
    } else {
        lemma_decimal_value(n / 10);
        let head = decimal(n / 10);
        assert(s.drop_last() =~= head);
        assert(digit_char((n % 10) as int) as int == n % 10 + 48);
        assert(s.last() == digit_char((n % 10) as int));
        assert(digits_value(s) == digits_value(head) * 10 + digit_value(s.last()));
        assert(n == (n / 10) * 10 + n % 10);
        assert forall|i: int| 0 <= i < s.len() implies #[trigger] is_digit(s[i]) by {
            if i < s.len() - 1 {
                assert(s[i] == head[i]);
            }
        }
    }
}

/// Different numbers have different decimal digits.
pub proof fn lemma_decimal_injective(a: nat, b: nat)
    requires
        decimal(a) == decimal(b),
    ensures
        a == b,
{
    lemma_decimal_value(a);
    lemma_decimal_value(b);
}

/// Appends `n` in decimal.
pub fn push_decimal(out: &mut String, n: u64)
    ensures
        final(out)@ == old(out)@ + decimal(n as nat),
    decreases n,
{
    let ghost start = out@;
    if n >= 10 {
        push_decimal(out, n / 10);
    }
    let d: u32 = (n % 10) as u32;
    let c = char_from_ascii(d + 48);
    push_char(out, c);
    proof {
        if n >= 10 {
            assert(out@ =~= start + decimal((n / 10) as nat).push(digit_char((n % 10) as int)));
        } else {
            assert(out@ =~= start + decimal(n as nat));
        }
    }
}

// ---------------------------------------------------------------------------
// Hexadecimal numbers
// ---------------------------------------------------------------------------

/// The lower-case hex digit for a value below sixteen.
pub open spec fn hex_char_lower(d: int) -> char {
    if d < 10 {
        ((d + 48) as u32) as char
    } else {
        ((d - 10 + 97) as u32) as char
    }
}

/// A byte as two lower-case hex digits (`{:02x}`).
pub open spec fn hex2_lower(b: u8) -> Seq<char> {
    seq![hex_char_lower((b / 16) as int), hex_char_lower((b % 16) as int)]
}

/// Different bytes have different pairs of lower-case hex digits.
pub proof fn lemma_hex2_lower_injective(a: u8, b: u8)
    requires
        hex2_lower(a) == hex2_lower(b),
    ensures
        a == b,
{
    let (ha, la) = ((a / 16) as int, (a % 16) as int);
    let (hb, lb) = ((b / 16) as int, (b % 16) as int);
    assert(hex2_lower(a)[0] == hex_char_lower(ha));
    assert(hex2_lower(b)[0] == hex_char_lower(hb));
    assert(hex2_lower(a)[1] == hex_char_lower(la));
    assert(hex2_lower(b)[1] == hex_char_lower(lb));
    assert(hex_char_lower(ha) as int == (if ha < 10 { ha + 48 } else { ha + 87 }));
    assert(hex_char_lower(hb) as int == (if hb < 10 { hb + 48 } else { hb + 87 }));
    assert(hex_char_lower(la) as int == (if la < 10 { la + 48 } else { la + 87 }));
    assert(hex_char_lower(lb) as int == (if lb < 10 { lb + 48 } else { lb + 87 }));
    assert(ha == hb);
    assert(la == lb);
}

/// The hex digit character for `d < 16`, lower case.
pub fn hex_digit_lower(d: u8) -> (c: char)
    requires
        d < 16,
    ensures
        c == hex_char_lower(d as int),
{
    if d < 10 {
        char_from_ascii((d as u32) + 48)
    } else {
        char_from_ascii((d as u32) - 10 + 97)
    }
}

/// Appends a byte as two lower-case hex digits.
pub fn push_hex2_lower(out: &mut String, b: u8)
    ensures
        final(out)@ == old(out)@ + hex2_lower(b),
{
    let ghost start = out@;
    push_char(out, hex_digit_lower(b / 16));
    push_char(out, hex_digit_lower(b % 16));
    assert(out@ =~= start + hex2_lower(b));
}

/// The last `width` hex digits of `n`, lower case, most significant first.
pub open spec fn hex_fixed_lower(n: nat, width: nat) -> Seq<char>
    decreases width,
{
    if width == 0 {
        Seq::empty()
    } else {
        hex_fixed_lower(n / 16, (width - 1) as nat).push(hex_char_lower((n % 16) as int))
    }
}

/// Appends the last `width` hex digits of `n` (`{:0width$x}` when `n` fits).
pub fn push_hex_fixed_lower(out: &mut String, n: u64, width: u32)
    ensures
        final(out)@ == old(out)@ + hex_fixed_lower(n as nat, width as nat),
    decreases width,
{
    let ghost start = out@;
    if width > 0 {
        push_hex_fixed_lower(out, n / 16, width - 1);
        push_char(out, hex_digit_lower((n % 16) as u8));
        assert(out@ =~= start + hex_fixed_lower(n as nat, width as nat));
    } else {
        assert(out@ =~= start + hex_fixed_lower(n as nat, width as nat));
    }
}


// ---------------------------------------------------------------------------
// Joining, substring search and replacement
// ---------------------------------------------------------------------------

/// The pieces joined with `sep` between each two of them.
pub open spec fn join(pieces: Seq<Seq<char>>, sep: char) -> Seq<char>
    decreases pieces.len(),
{
    if pieces.len() == 0 {
        Seq::empty()
    } else if pieces.len() == 1 {
        pieces[0]
    } else {
        join(pieces.drop_last(), sep).push(sep) + pieces.last()
    }
}

/// Whether `p` occurs in `s` at index `j`.
pub open spec fn occurs_at(s: Seq<char>, p: Seq<char>, j: int) -> bool {
    0 <= j && j + p.len() <= s.len() && s.subrange(j, j + p.len()) == p
}

/// The first index at or after `i` where `p` occurs in `s`, or the length of
/// `s` when there is none.
pub open spec fn find_sub_from(s: Seq<char>, p: Seq<char>, i: int) -> int
    decreases s.len() - i,
{
    if i < 0 || i >= s.len() || i + p.len() > s.len() {
        s.len() as int
    } else if occurs_at(s, p, i) {
        i
    } else {
        find_sub_from(s, p, i + 1)
    }
}

/// `str::contains` for a nonempty pattern.
pub open spec fn contains_sub(s: Seq<char>, p: Seq<char>) -> bool {
    find_sub_from(s, p, 0) < s.len()
}

pub proof fn lemma_find_sub_from(s: Seq<char>, p: Seq<char>, i: int)
    requires
        0 <= i <= s.len(),
        p.len() > 0,
    ensures
        i <= find_sub_from(s, p, i) <= s.len(),
        find_sub_from(s, p, i) < s.len() ==> occurs_at(s, p, find_sub_from(s, p, i)),
    decreases s.len() - i,
{
    if i + p.len() <= s.len() && !occurs_at(s, p, i) {
        lemma_find_sub_from(s, p, i + 1);
    }
}

/// `s[i..]` with every occurrence of the nonempty `p` replaced by `r`, left to
/// right and without overlaps.
pub open spec fn replace_from(s: Seq<char>, p: Seq<char>, r: Seq<char>, i: int) -> Seq<char>
    decreases s.len() - i,
{
    if i < 0 || i > s.len() || p.len() == 0 {
        Seq::empty()
    } else {
        let j = find_sub_from(s, p, i);
        if j >= s.len() || j < i || j + p.len() > s.len() {
            s.subrange(i, s.len() as int)
        } else {
            s.subrange(i, j) + r + replace_from(s, p, r, j + p.len())
        }
    }
}

/// `str::replace(p, r)` for a nonempty pattern `p`.
pub open spec fn replace_all(s: Seq<char>, p: Seq<char>, r: Seq<char>) -> Seq<char> {
    replace_from(s, p, r, 0)
}

/// Whether `p` occurs in `s` at `j`.
fn matches_at(s: &[char], p: &[char], j: usize) -> (res: bool)
    requires
        j + p@.len() <= s@.len(),
    ensures
        res == occurs_at(s@, p@, j as int),
{
    let mut k: usize = 0;
    while k < p.len()
        invariant
            k <= p@.len(),
            j + p@.len() <= s@.len(),
            forall|m: int| 0 <= m < k ==> s@[j + m] == p@[m],
        decreases p.len() - k,
    {
        let n: usize = s.len();
        assert(j + k < n);
        let idx: usize = j + k;
        if s[idx] != p[k] {
            assert(s@.subrange(j as int, j + p@.len())[k as int] != p@[k as int]);
            return false;
        }
        k = k + 1;
    }
    assert(s@.subrange(j as int, j + p@.len()) =~= p@);
    true
}

/// The first index at or after `i` where `p` occurs in `s`, or the length of `s`.
pub fn find_sub(s: &[char], p: &[char], i: usize) -> (res: usize)
    requires
        i <= s@.len(),
    ensures
        res == find_sub_from(s@, p@, i as int),
{
    let mut j: usize = i;
    while j < s.len() && p.len() <= s.len() - j
        invariant
            i <= j <= s@.len(),
            find_sub_from(s@, p@, i as int) == find_sub_from(s@, p@, j as int),
        decreases s.len() - j,
    {
        if matches_at(s, p, j) {
            return j;
        }
        j = j + 1;
    }
    s.len()
}

/// Whether the nonempty pattern `p` occurs in `s`.
pub fn contains(s: &[char], p: &[char]) -> (res: bool)
    ensures
        res == contains_sub(s@, p@),
{
    find_sub(s, p, 0) < s.len()
}

/// Replaces every occurrence of the nonempty `p` in `s` by `r`.
pub fn replace(s: &[char], p: &[char], r: &[char]) -> (out: Vec<char>)
    requires
        p@.len() > 0,
    ensures
        out@ == replace_all(s@, p@, r@),
{
    let mut out: Vec<char> = Vec::new();
    let mut i: usize = 0;
    while i <= s.len()
        invariant
            i <= s@.len() + p@.len(),
            p@.len() > 0,
            i <= s@.len() ==> out@ + replace_from(s@, p@, r@, i as int) == replace_all(s@, p@, r@),
            i > s@.len() ==> out@ == replace_all(s@, p@, r@),
        decreases s@.len() + 1 - i,
    {
        let j = find_sub(s, p, i);
        proof {
            lemma_find_sub_from(s@, p@, i as int);
        }
        let ghost before = out@;
        if j >= s.len() {
            let tail = copy_range(s, i, s.len());
            out.extend_from_slice(tail.as_slice());
            assert(out@ =~= before + replace_from(s@, p@, r@, i as int));
            return out;
        }
        let head = copy_range(s, i, j);
        out.extend_from_slice(head.as_slice());
        out.extend_from_slice(r);
        assert(out@ =~= before + s@.subrange(i as int, j as int) + r@);
        assert(replace_from(s@, p@, r@, i as int) == s@.subrange(i as int, j as int) + r@
            + replace_from(s@, p@, r@, j + p@.len()));
        assert(out@ + replace_from(s@, p@, r@, j + p@.len()) =~= before + replace_from(
            s@,
            p@,
            r@,
            i as int,
        ));
        i = j + p.len();
    }
    out
}

/// Whether `s` is nonempty and ends with `c`.
pub open spec fn ends_with_char(s: Seq<char>, c: char) -> bool {
    s.len() > 0 && s.last() == c
}


/// The view of an optional string.
pub open spec fn opt_seq(o: Option<String>) -> Option<Seq<char>> {
    match o {
        Some(s) => Some(s@),
        None => None,
    }
}

/// A flag value that reads as true: `1`, `true`, `yes` or `on` (already lower-cased).
pub open spec fn is_truthy(s: Seq<char>) -> bool {
    s == "1"@ || s == "true"@ || s == "yes"@ || s == "on"@
}

/// Whether a lower-cased flag value reads as true.
pub fn truthy(s: &[char]) -> (res: bool)
    ensures
        res == is_truthy(s@),
{
    chars_eq_str(s, "1") || chars_eq_str(s, "true") || chars_eq_str(s, "yes") || chars_eq_str(
        s,
        "on",
    )
}


// ---------------------------------------------------------------------------
// UTF-8 lengths
// ---------------------------------------------------------------------------

/// The number of bytes of a character in UTF-8.
pub open spec fn utf8_width(c: char) -> nat {
    let v = c as u32;
    if v <= 0x7f {
        1
    } else if v <= 0x7ff {
        2
    } else if v <= 0xffff {
        3
    } else {
        4
    }
}

proof fn lemma_encode_scalar_len(c: char)
    ensures
        vstd::utf8::encode_scalar(c as u32).len() == utf8_width(c),
{
}

proof fn lemma_encode_utf8_append(a: Seq<char>, b: Seq<char>)
    ensures
        vstd::utf8::encode_utf8(a + b) == vstd::utf8::encode_utf8(a) + vstd::utf8::encode_utf8(b),
    decreases a.len(),
{
    if a.len() > 0 {
        assert((a + b).drop_first() =~= a.drop_first() + b);
        lemma_encode_utf8_append(a.drop_first(), b);
        assert((a + b)[0] == a[0]);
        assert(vstd::utf8::encode_utf8(a + b) =~= vstd::utf8::encode_scalar(a[0] as u32)
            + vstd::utf8::encode_utf8(a.drop_first() + b));
        assert(vstd::utf8::encode_utf8(a + b) =~= vstd::utf8::encode_utf8(a)
            + vstd::utf8::encode_utf8(b));
    } else {
        assert(a + b =~= b);
        assert(vstd::utf8::encode_utf8(a) =~= Seq::<u8>::empty());
        assert(vstd::utf8::encode_utf8(a + b) =~= vstd::utf8::encode_utf8(a)
            + vstd::utf8::encode_utf8(b));
    }
}

/// Whether the UTF-8 encoding of `s` takes at most `max` bytes.
pub fn utf8_len_at_most(s: &[char], max: usize) -> (res: bool)
    ensures
        res == (vstd::utf8::encode_utf8(s@).len() <= max),
{
    let mut acc: usize = 0;
    let mut i: usize = 0;
    assert(s@.take(0) =~= Seq::<char>::empty());
    assert(vstd::utf8::encode_utf8(Seq::<char>::empty()) =~= Seq::<u8>::empty());
    while i < s.len()
        invariant
            i <= s@.len(),
            acc <= max,
            acc == vstd::utf8::encode_utf8(s@.take(i as int)).len(),
        decreases s.len() - i,
    {
        let c = s[i];
        let v = c as u32;
        let w: usize = if v <= 0x7f {
            1
        } else if v <= 0x7ff {
            2
        } else if v <= 0xffff {
            3
        } else {
            4
        };
        proof {
            lemma_encode_scalar_len(c);
            assert(s@.take(i + 1) =~= s@.take(i as int) + seq![c]);
            lemma_encode_utf8_append(s@.take(i as int), seq![c]);
            assert(seq![c].drop_first() =~= Seq::<char>::empty());
            assert(seq![c][0] == c);
            assert(vstd::utf8::encode_utf8(Seq::<char>::empty()) =~= Seq::<u8>::empty());
            assert(vstd::utf8::encode_utf8(seq![c]) == vstd::utf8::encode_scalar(seq![c][0] as u32)
                + vstd::utf8::encode_utf8(seq![c].drop_first()));
            assert(vstd::utf8::encode_utf8(seq![c]) =~= vstd::utf8::encode_scalar(c as u32));
            assert(s@ =~= s@.take(i + 1) + s@.skip(i + 1));
            lemma_encode_utf8_append(s@.take(i + 1), s@.skip(i + 1));
        }
        if w > max - acc {
            return false;
        }
        acc = acc + w;
        i = i + 1;
    }
    assert(s@.take(s@.len() as int) =~= s@);
    true
}

} // verus!
