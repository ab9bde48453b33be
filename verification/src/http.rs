use vstd::prelude::*;
use vstd::string::StringExecFns;
use vstd::string::StringSliceAdditionalSpecFns;
use crate::text::{chars_of, chars_eq_str, decimal, find_char_from, find_from, lemma_find_from, parse_unsigned, parse_unsigned_range, push_decimal, push_str, slice_chars, split_char, split_on, starts_with, starts_with_str, string_of, views, contains_at, matches_at};

verus! {

// ---------------------------------------------------------------------------
// Query strings
// ---------------------------------------------------------------------------

/// `pair.splitn(2, '=')` when it yields two parts: the key before the first
/// `=` and the value after it.
pub open spec fn key_value(pair: Seq<char>) -> Option<(Seq<char>, Seq<char>)> {
    let j = find_from(pair, '=', 0);
    if j < pair.len() {
        Some((pair.subrange(0, j), pair.subrange(j + 1, pair.len() as int)))
    } else {
        None
    }
}

/// The value of the first `key=value` pair among `pairs` whose key is `key`.
pub open spec fn first_value(pairs: Seq<Seq<char>>, key: Seq<char>) -> Option<Seq<char>>
    decreases pairs.len(),
{
    if pairs.len() == 0 {
        None
    } else {
        match key_value(pairs[0]) {
            Some((k, v)) => if k == key { Some(v) } else { first_value(pairs.drop_first(), key) },
            None => first_value(pairs.drop_first(), key),
        }
    }
}

/// The value of `key` in a query string `a=1&b=2`: that of the first
/// `&`-separated pair with that key.
pub open spec fn query_param(query: Seq<char>, key: Seq<char>) -> Option<Seq<char>> {
    first_value(split_on(query, '&'), key)
}

fn key_value_exec(pair: &Vec<char>) -> (r: Option<(Vec<char>, Vec<char>)>)
    ensures
        match r {
            Some((k, v)) => key_value(pair@) == Some((k@, v@)),
            None => key_value(pair@) is None,
        },
{
    let j = find_char_from(pair, '=', 0);
    proof {
        lemma_find_from(pair@, '=', 0);
    }
    if j < pair.len() {
        Some((slice_chars(pair, 0, j), slice_chars(pair, j + 1, pair.len())))
    } else {
        None
    }
}

/// The value of `key` in a query string, if some pair carries it.
pub fn parse_query_param(query: &str, key: &str) -> (r: Option<String>)
    ensures
        match r {
            Some(v) => query_param(query@, key@) == Some(v@),
            None => query_param(query@, key@) is None,
        },
{
    let q = chars_of(query);
    let pairs = split_char(&q, '&');
    let ghost all = views(pairs@);
    assert(all == split_on(query@, '&'));
    let mut i: usize = 0;
    assert(all.subrange(0, all.len() as int) == all);
    while i < pairs.len()
        invariant
            all == views(pairs@),
            all == split_on(query@, '&'),
            all.len() == pairs.len(),
            0 <= i <= pairs.len(),
            first_value(all.subrange(i as int, all.len() as int), key@) == first_value(all, key@),
        decreases pairs.len() - i,
    {
        let ghost rest = all.subrange(i as int, all.len() as int);
        assert(rest[0] == pairs@[i as int]@);
        assert(rest.drop_first() == all.subrange(i + 1, all.len() as int));
        match key_value_exec(&pairs[i]) {
            Some((k, v)) => {
                if chars_eq_str(&k, key) {
                    assert(rest.len() > 0);
                    assert(first_value(rest, key@) == Some(v@));
                    return Some(string_of(&v));
                }
            },
            None => {},
        }
        i = i + 1;
    }
    assert(all.subrange(i as int, all.len() as int) == Seq::<Seq<char>>::empty());
    None
}

// ---------------------------------------------------------------------------
// Percent-decoding
// ---------------------------------------------------------------------------

/// Decoding from index `i`: `%XY` becomes the character with code `0xXY`
/// (a missing digit reads as `0`; an invalid pair is dropped), `+` becomes
/// a space, and every other character stays.
pub open spec fn decode_from(s: Seq<char>, i: int) -> Seq<char>
    decreases s.len() - i,
{
    if i < 0 || i >= s.len() {
        Seq::empty()
    } else if s[i] == '%' {
        let h1 = if i + 1 < s.len() { s[i + 1] } else { '0' };
        let h2 = if i + 2 < s.len() { s[i + 2] } else { '0' };
        let next = if i + 3 <= s.len() { i + 3 } else { s.len() as int };
        match parse_unsigned(seq![h1, h2], 16, 255) {
            Some(b) => seq![(b as u32) as char] + decode_from(s, next),
            None => decode_from(s, next),
        }
    } else if s[i] == '+' {
        seq![' '] + decode_from(s, i + 1)
    } else {
        seq![s[i]] + decode_from(s, i + 1)
    }
}

/// Percent-decode a URL component.
pub fn url_decode(s: &str) -> (r: String)
    ensures
        r@ == decode_from(s@, 0),
{
    let v = chars_of(s);
    let mut out: Vec<char> = Vec::new();
    let mut i: usize = 0;
    while i < v.len()
        invariant
            i <= v.len(),
            v@ == s@,
            out@ + decode_from(v@, i as int) == decode_from(v@, 0),
        decreases v.len() - i,
    {
        let c = v[i];
        if c == '%' {
            let left = v.len() - i;
            let h1 = if left > 1 { v[i + 1] } else { '0' };
            let h2 = if left > 2 { v[i + 2] } else { '0' };
            let next = if left >= 3 { i + 3 } else { v.len() };
            let mut pair: Vec<char> = Vec::new();
            pair.push(h1);
            pair.push(h2);
            assert(pair@ == seq![h1, h2]);
            assert(pair@.subrange(0, 2) == pair@);
            match parse_unsigned_range(&pair, 0, 2, 16, 255) {
                Some(b) => {
                    let ch = char_of_byte(b as u8);
                    let ghost before = out@;
                    out.push(ch);
                    assert(out@ + decode_from(v@, next as int) =~= before + (seq![ch] + decode_from(v@, next as int)));
                },
                None => {},
            }
            i = next;
        } else if c == '+' {
            let ghost before = out@;
            out.push(' ');
            assert(out@ + decode_from(v@, i + 1) =~= before + (seq![' '] + decode_from(v@, i + 1)));
            i = i + 1;
        } else {
            let ghost before = out@;
            out.push(c);
            assert(out@ + decode_from(v@, i + 1) =~= before + (seq![c] + decode_from(v@, i + 1)));
            i = i + 1;
        }
    }
    assert(out@ + Seq::<char>::empty() =~= out@);
    string_of(&out)
}

/// The character whose code is the byte's value (`u8 as char`).
fn char_of_byte(b: u8) -> (c: char)
    ensures
        c == ((b as u32) as char),
{
    b as char
}

// ---------------------------------------------------------------------------
// Percent-encoding
// ---------------------------------------------------------------------------

/// The character whose code is a byte's value.
pub open spec fn byte_char(b: u8) -> char {
    (b as u32) as char
}

/// The characters whose codes are the bytes' values.
pub open spec fn byte_chars(b: Seq<u8>) -> Seq<char> {
    b.map_values(|x: u8| byte_char(x))
}

/// Bytes that are written as they are: ASCII letters and digits, `-`, `_`,
/// `.`, `~` and `/`.
pub open spec fn unreserved(b: u8) -> bool {
    (48 <= b <= 57) || (65 <= b <= 90) || (97 <= b <= 122) || b == 45 || b == 95 || b == 46
        || b == 126 || b == 47
}

/// The hexadecimal digit of `d < 16`, its letters uppercase or lowercase.
pub open spec fn hex_char(d: int, upper: bool) -> char {
    if d < 10 {
        (d + 48) as char
    } else if upper {
        (d + 55) as char
    } else {
        (d + 87) as char
    }
}

/// `%XY`: a byte as `%` and its two hexadecimal digits, the high digit's
/// letter in the case `hi_upper` gives and the low digit's in `lo_upper`'s.
pub open spec fn escaped(b: u8, hi_upper: bool, lo_upper: bool) -> Seq<char> {
    seq!['%', hex_char((b / 16) as int, hi_upper), hex_char((b % 16) as int, lo_upper)]
}

/// Percent-encoding: unreserved bytes stay, every other byte becomes `%XY`
/// with uppercase digits.
pub open spec fn url_encoded(b: Seq<u8>) -> Seq<char>
    decreases b.len(),
{
    if b.len() == 0 {
        Seq::empty()
    } else {
        (if unreserved(b[0]) { seq![byte_char(b[0])] } else { escaped(b[0], true, true) }) + url_encoded(
            b.drop_first(),
        )
    }
}

/// Every byte as `%XY`; `cases[i]` gives the case of the high and the low
/// digit of byte `i` (so any mix of cases can be written).
pub open spec fn fully_escaped(b: Seq<u8>, cases: Seq<(bool, bool)>) -> Seq<char>
    decreases b.len(),
{
    if b.len() == 0 {
        Seq::empty()
    } else {
        escaped(b[0], cases[0].0, cases[0].1) + fully_escaped(b.drop_first(), cases.drop_first())
    }
}

/// `s` with every `+` read as a space.
pub open spec fn plus_as_space(s: Seq<char>) -> Seq<char> {
    Seq::new(s.len(), |i: int| if s[i] == '+' { ' ' } else { s[i] })
}

fn hex_char_upper(d: u8) -> (c: char)
    requires
        d < 16,
    ensures
        c == hex_char(d as int, true),
{
    if d < 10 {
        char_of_byte(d + 48)
    } else {
        char_of_byte(d + 55)
    }
}

/// Percent-encode a text by its UTF-8 bytes (see [`url_encoded`]).
pub fn url_encode(s: &str) -> (r: String)
    ensures
        r@ == url_encoded(s.spec_bytes()),
{
    let bytes = s.as_bytes();
    let ghost all = bytes@;
    let mut out: Vec<char> = Vec::new();
    let mut i: usize = 0;
    assert(all.subrange(0, all.len() as int) == all);
    while i < bytes.len()
        invariant
            all == bytes@,
            i <= bytes.len(),
            out@ + url_encoded(all.subrange(i as int, all.len() as int)) == url_encoded(all),
        decreases bytes.len() - i,
    {
        let b = bytes[i];
        let ghost rest = all.subrange(i as int, all.len() as int);
        assert(rest[0] == b);
        assert(rest.drop_first() == all.subrange(i + 1, all.len() as int));
        let ghost before = out@;
        if (48 <= b && b <= 57) || (65 <= b && b <= 90) || (97 <= b && b <= 122) || b == 45 || b == 95
            || b == 46 || b == 126 || b == 47 {
            out.push(char_of_byte(b));
            assert(out@ == before + seq![byte_char(b)]);
        } else {
            out.push('%');
            out.push(hex_char_upper(b / 16));
            out.push(hex_char_upper(b % 16));
            assert(out@ == before + escaped(b, true, true));
        }
        i = i + 1;
    }
    assert(all.subrange(i as int, all.len() as int) == Seq::<u8>::empty());
    assert(out@ + Seq::<char>::empty() =~= out@);
    string_of(&out)
}

/// A byte's two hexadecimal digits, in either case, read back as the byte.
proof fn lemma_hex_pair(b: u8, hi_upper: bool, lo_upper: bool)
    ensures
        parse_unsigned(seq![hex_char((b / 16) as int, hi_upper), hex_char((b % 16) as int, lo_upper)], 16, 255)
            == Some(b as int),
{
    let h1 = hex_char((b / 16) as int, hi_upper);
    let h2 = hex_char((b % 16) as int, lo_upper);
    let d = seq![h1, h2];
    assert(h1 as u32 != 43);
    assert(crate::text::unsigned_digits(d) == d);
    assert(crate::text::digit_value(h1, 16) == Some((b / 16) as nat));
    assert(crate::text::digit_value(h2, 16) == Some((b % 16) as nat));
    assert(crate::text::all_digits_in(d, 16));
    assert(d.drop_last() =~= seq![h1]);
    assert(seq![h1].drop_last() =~= Seq::<char>::empty());
    assert(crate::text::radix_value(Seq::<char>::empty(), 16) == 0);
    assert(seq![h1].last() == h1);
    assert(crate::text::radix_value(seq![h1], 16) == (b / 16) as int);
    assert(crate::text::radix_value(d, 16) == (b / 16) * 16 + b % 16);
}

/// Decoding from a position depends only on the text from there on.
proof fn lemma_decode_shift(a: Seq<char>, b: Seq<char>, j: int)
    requires
        0 <= j <= b.len(),
    ensures
        decode_from(a + b, a.len() + j) == decode_from(b, j),
    decreases b.len() - j,
{
    let s = a + b;
    let i = a.len() + j;
    if j < b.len() {
        assert(s[i] == b[j]);
        if b[j] == '%' {
            if j + 1 < b.len() {
                assert(s[i + 1] == b[j + 1]);
            }
            if j + 2 < b.len() {
                assert(s[i + 2] == b[j + 2]);
            }
            let next = if j + 3 <= b.len() { j + 3 } else { b.len() as int };
            lemma_decode_shift(a, b, next);
        } else {
            lemma_decode_shift(a, b, j + 1);
        }
    }
}

/// Decoding `%XY` followed by more text.
proof fn lemma_decode_escaped(x: u8, hi_upper: bool, lo_upper: bool, rest: Seq<char>)
    ensures
        decode_from(escaped(x, hi_upper, lo_upper) + rest, 0) == seq![byte_char(x)] + decode_from(rest, 0),
{
    let e = escaped(x, hi_upper, lo_upper);
    let s = e + rest;
    lemma_hex_pair(x, hi_upper, lo_upper);
    assert(s[0] == '%');
    assert(s[1] == e[1]);
    assert(s[2] == e[2]);
    lemma_decode_shift(e, rest, 0);
}

/// Reading back what [`url_encode`] writes gives the characters with the
/// bytes' codes.
pub proof fn law_url_round_trip(b: Seq<u8>)
    ensures
        decode_from(url_encoded(b), 0) == byte_chars(b),
    decreases b.len(),
{
    if b.len() == 0 {
        assert(byte_chars(b) =~= Seq::<char>::empty());
    } else {
        let x = b[0];
        let rest = url_encoded(b.drop_first());
        law_url_round_trip(b.drop_first());
        assert(byte_chars(b) =~= seq![byte_char(x)] + byte_chars(b.drop_first()));
        if unreserved(x) {
            let head = seq![byte_char(x)];
            let s = head + rest;
            assert(s[0] == byte_char(x));
            assert(byte_char(x) as u32 == x as u32);
            lemma_decode_shift(head, rest, 0);
            assert(decode_from(s, 0) == seq![s[0]] + decode_from(s, 1));
        } else {
            lemma_decode_escaped(x, true, true, rest);
        }
    }
}

/// Text made of ASCII characters comes back unchanged from
/// [`url_encode`] and [`url_decode`].
pub proof fn law_url_round_trip_ascii(s: Seq<char>)
    requires
        vstd::utf8::is_ascii_chars(s),
    ensures
        decode_from(url_encoded(vstd::utf8::encode_utf8(s)), 0) == s,
{
    let b = vstd::utf8::encode_utf8(s);
    vstd::utf8::is_ascii_chars_encode_utf8(s);
    law_url_round_trip(b);
    assert forall|i: int| 0 <= i < s.len() implies byte_chars(b)[i] == s[i] by {
        assert(s[i] as u8 == b[i]);
        assert('\0' <= s[i] <= '\u{7f}');
    }
    assert(byte_chars(b) =~= s);
}

/// Every byte written as `%XY`, each digit in either case, decodes to the
/// characters with the bytes' codes.
pub proof fn law_decode_fully_escaped(b: Seq<u8>, cases: Seq<(bool, bool)>)
    requires
        cases.len() == b.len(),
    ensures
        decode_from(fully_escaped(b, cases), 0) == byte_chars(b),
    decreases b.len(),
{
    if b.len() == 0 {
        assert(byte_chars(b) =~= Seq::<char>::empty());
    } else {
        law_decode_fully_escaped(b.drop_first(), cases.drop_first());
        lemma_decode_escaped(b[0], cases[0].0, cases[0].1, fully_escaped(b.drop_first(), cases.drop_first()));
        assert(byte_chars(b) =~= seq![byte_char(b[0])] + byte_chars(b.drop_first()));
    }
}

/// ASCII text with every byte written as `%XY`, each digit in either case,
/// decodes back to the text.
pub proof fn law_decode_fully_escaped_ascii(s: Seq<char>, cases: Seq<(bool, bool)>)
    requires
        vstd::utf8::is_ascii_chars(s),
        cases.len() == s.len(),
    ensures
        decode_from(fully_escaped(vstd::utf8::encode_utf8(s), cases), 0) == s,
{
    let b = vstd::utf8::encode_utf8(s);
    vstd::utf8::is_ascii_chars_encode_utf8(s);
    law_decode_fully_escaped(b, cases);
    assert forall|i: int| 0 <= i < s.len() implies byte_chars(b)[i] == s[i] by {
        assert(s[i] as u8 == b[i]);
        assert('\0' <= s[i] <= '\u{7f}');
    }
    assert(byte_chars(b) =~= s);
}

proof fn lemma_decode_plain(s: Seq<char>, j: int)
    requires
        0 <= j <= s.len(),
        forall|i: int| 0 <= i < s.len() ==> s[i] != '%',
    ensures
        decode_from(s, j) == plus_as_space(s).subrange(j, s.len() as int),
    decreases s.len() - j,
{
    if j < s.len() {
        lemma_decode_plain(s, j + 1);
        assert(plus_as_space(s).subrange(j, s.len() as int) =~= seq![plus_as_space(s)[j]] + plus_as_space(
            s,
        ).subrange(j + 1, s.len() as int));
    } else {
        assert(plus_as_space(s).subrange(j, s.len() as int) =~= Seq::<char>::empty());
    }
}

/// Text without `%` decodes to itself with every `+` read as a space.
pub proof fn law_decode_without_percent(s: Seq<char>)
    requires
        forall|i: int| 0 <= i < s.len() ==> s[i] != '%',
    ensures
        decode_from(s, 0) == plus_as_space(s),
{
    lemma_decode_plain(s, 0);
    assert(plus_as_space(s).subrange(0, s.len() as int) =~= plus_as_space(s));
}

} // verus!

verus! {

// ---------------------------------------------------------------------------
// URLs
// ---------------------------------------------------------------------------

/// Why a URL was refused.
#[derive(Debug, Clone, Copy, PartialEq, Eq, Structural)]
pub enum UrlError {
    /// The text after `:` in the host part is no port number.
    InvalidPort,
}

/// A URL split into host, port and path.
pub struct UrlParts {
    pub host: String,
    pub port: u16,
    pub path: String,
}

/// `url` without a leading `http://`.
pub open spec fn without_scheme(url: Seq<char>) -> Seq<char> {
    if starts_with(url, "http://"@) { url.subrange(7, url.len() as int) } else { url }
}

/// The host part: up to the first `/`.
pub open spec fn host_part(url: Seq<char>) -> Seq<char> {
    let u = without_scheme(url);
    u.subrange(0, find_from(u, '/', 0))
}

/// The path: from the first `/` on, or `/` when there is none.
pub open spec fn url_path(url: Seq<char>) -> Seq<char> {
    let u = without_scheme(url);
    let j = find_from(u, '/', 0);
    if j < u.len() { u.subrange(j, u.len() as int) } else { "/"@ }
}

/// `(host, port)`: the port after the first `:` of the host part (an error
/// when that is no number up to 65535), else port 80.
pub open spec fn url_host_port(url: Seq<char>) -> Result<(Seq<char>, u16), UrlError> {
    let hp = host_part(url);
    let k = find_from(hp, ':', 0);
    if k < hp.len() {
        match parse_unsigned(hp.subrange(k + 1, hp.len() as int), 10, 65535) {
            Some(p) => Ok((hp.subrange(0, k), p as u16)),
            None => Err(UrlError::InvalidPort),
        }
    } else {
        Ok((hp, 80u16))
    }
}

/// Split an `http://host[:port]/path` URL.
pub fn parse_url(url: &str) -> (r: Result<UrlParts, UrlError>)
    ensures
        match r {
            Ok(p) => url_host_port(url@) == Ok::<(Seq<char>, u16), UrlError>((p.host@, p.port))
                && p.path@ == url_path(url@),
            Err(e) => url_host_port(url@) == Err::<(Seq<char>, u16), UrlError>(e),
        },
{
    let all = chars_of(url);
    let u = if starts_with_str(&all, "http://") {
        proof {
            reveal_strlit("http://");
        }
        slice_chars(&all, 7, all.len())
    } else {
        all
    };
    assert(u@ == without_scheme(url@));
    let j = find_char_from(&u, '/', 0);
    proof {
        lemma_find_from(u@, '/', 0);
    }
    let hp = slice_chars(&u, 0, j);
    let path = if j < u.len() { slice_chars(&u, j, u.len()) } else { chars_of("/") };
    let k = find_char_from(&hp, ':', 0);
    proof {
        lemma_find_from(hp@, ':', 0);
    }
    if k < hp.len() {
        match parse_unsigned_range(&hp, k + 1, hp.len(), 10, 65535) {
            Some(p) => {
                let host = slice_chars(&hp, 0, k);
                Ok(UrlParts { host: string_of(&host), port: p as u16, path: string_of(&path) })
            },
            None => Err(UrlError::InvalidPort),
        }
    } else {
        Ok(UrlParts { host: string_of(&hp), port: 80, path: string_of(&path) })
    }
}

} // verus!

verus! {

// ---------------------------------------------------------------------------
// Request heads
// ---------------------------------------------------------------------------

/// `str::to_lowercase`: the Unicode lower-case form of a text.
pub uninterp spec fn lowercase(s: Seq<char>) -> Seq<char>;

/// An ASCII letter made lowercase; every other character as it is.
pub open spec fn ascii_lower(c: char) -> char {
    if 'A' <= c <= 'Z' { ((c as u32) + 32) as char } else { c }
}

/// `str::to_lowercase`.  Claimed: the result is [`lowercase`] of the text,
/// and for ASCII text it is the text with `A`–`Z` made `a`–`z` (ASCII
/// letters map to their lowercase letters; other ASCII characters have no
/// lowercase mapping and stay).
#[verifier::external_body]
pub(crate) fn to_lowercase(s: &Vec<char>) -> (r: Vec<char>)
    ensures
        r@ == lowercase(s@),
        vstd::utf8::is_ascii_chars(s@) ==> r@ == s@.map_values(|c: char| ascii_lower(c)),
{
    let text: String = s.iter().collect();
    text.to_lowercase().chars().collect()
}

/// The text without trailing `\r` characters.
pub open spec fn trim_end_cr(s: Seq<char>) -> Seq<char>
    decreases s.len(),
{
    if s.len() > 0 && s.last() == '\r' { trim_end_cr(s.drop_last()) } else { s }
}

/// The first line whose lower-case form starts with `p`.
pub open spec fn first_header(ls: Seq<Seq<char>>, p: Seq<char>) -> Option<Seq<char>>
    decreases ls.len(),
{
    if ls.len() == 0 {
        None
    } else if starts_with(lowercase(ls[0]), p) {
        Some(ls[0])
    } else {
        first_header(ls.drop_first(), p)
    }
}

/// The `Content-Length` of a header block: the text between the first and a
/// second `:` of the first such line, trimmed, as a number; 0 otherwise.
pub open spec fn content_length_of(ls: Seq<Seq<char>>) -> usize {
    match first_header(ls, "content-length:"@) {
        Some(l) => {
            let parts = split_on(l, ':');
            if parts.len() > 1 {
                match parse_unsigned(crate::text::trim(parts[1]), 10, usize::MAX as int) {
                    Some(n) => n as usize,
                    None => 0,
                }
            } else {
                0
            }
        },
        None => 0,
    }
}

/// The `Content-Type` of a header block: everything after the first `:` of
/// the first such line, trimmed; empty otherwise.
pub open spec fn content_type_of(ls: Seq<Seq<char>>) -> Seq<char> {
    match first_header(ls, "content-type:"@) {
        Some(l) => {
            let j = find_from(l, ':', 0);
            if j < l.len() { crate::text::trim(l.subrange(j + 1, l.len() as int)) } else { Seq::empty() }
        },
        None => Seq::empty(),
    }
}

/// What the dashboard reads from a request head.
pub struct RequestHead {
    pub method: String,
    pub path: String,
    pub query: String,
    pub content_length: usize,
    pub content_type: String,
}

/// The words of the request line.
pub open spec fn request_tokens(ls: Seq<Seq<char>>) -> Seq<Seq<char>> {
    crate::text::tokens(trim_end_cr(ls[0]))
}

/// The method: first word of the request line, `GET` when there is none.
pub open spec fn request_method(ls: Seq<Seq<char>>) -> Seq<char> {
    let t = request_tokens(ls);
    if t.len() > 0 { t[0] } else { "GET"@ }
}

/// The target: second word of the request line, `/` when there is none.
pub open spec fn request_target(ls: Seq<Seq<char>>) -> Seq<char> {
    let t = request_tokens(ls);
    if t.len() > 1 { t[1] } else { "/"@ }
}

/// The path: the target up to the first `?`.
pub open spec fn request_path(ls: Seq<Seq<char>>) -> Seq<char> {
    let t = request_target(ls);
    t.subrange(0, find_from(t, '?', 0))
}

/// The query: the target after the first `?`, empty when there is none.
pub open spec fn request_query(ls: Seq<Seq<char>>) -> Seq<char> {
    let t = request_target(ls);
    let q = find_from(t, '?', 0);
    if q < t.len() { t.subrange(q + 1, t.len() as int) } else { Seq::empty() }
}

fn trim_end_cr_exec(v: &Vec<char>) -> (r: Vec<char>)
    ensures
        r@ == trim_end_cr(v@),
{
    let mut n = v.len();
    assert(v@.subrange(0, n as int) == v@);
    while n > 0 && v[n - 1] == '\r'
        invariant
            n <= v.len(),
            trim_end_cr(v@.subrange(0, n as int)) == trim_end_cr(v@),
        decreases n,
    {
        assert(v@.subrange(0, n as int).drop_last() == v@.subrange(0, n - 1));
        n = n - 1;
    }
    slice_chars(v, 0, n)
}

pub(crate) fn first_header_exec(ls: &Vec<Vec<char>>, p: &str) -> (r: Option<usize>)
    ensures
        match r {
            Some(i) => i < ls.len() && first_header(views(ls@), p@) == Some(ls@[i as int]@),
            None => first_header(views(ls@), p@) is None,
        },
{
    let ghost all = views(ls@);
    assert(all.subrange(0, all.len() as int) == all);
    let mut i: usize = 0;
    while i < ls.len()
        invariant
            all == views(ls@),
            all.len() == ls.len(),
            0 <= i <= ls.len(),
            first_header(all.subrange(i as int, all.len() as int), p@) == first_header(all, p@),
        decreases ls.len() - i,
    {
        let ghost rest = all.subrange(i as int, all.len() as int);
        assert(rest[0] == ls@[i as int]@);
        assert(rest.drop_first() == all.subrange(i + 1, all.len() as int));
        let low = to_lowercase(&ls[i]);
        if starts_with_str(&low, p) {
            assert(rest.len() > 0);
            return Some(i);
        }
        i = i + 1;
    }
    assert(all.subrange(i as int, all.len() as int) == Seq::<Seq<char>>::empty());
    None
}

/// Read method, path, query, `Content-Length` and `Content-Type` from the
/// text of a request head; `None` when it holds no line at all.
pub fn parse_request_head(header: &str) -> (r: Option<RequestHead>)
    ensures
        ({
            let ls = crate::text::lines(header@);
            match r {
                None => ls.len() == 0,
                Some(h) => ls.len() > 0
                    && h.method@ == request_method(ls)
                    && h.path@ == request_path(ls)
                    && h.query@ == request_query(ls)
                    && h.content_length == content_length_of(ls)
                    && h.content_type@ == content_type_of(ls),
            }
        }),
{
    let v = chars_of(header);
    let ls = crate::text::split_lines(&v);
    let ghost all = views(ls@);
    if ls.len() == 0 {
        return None;
    }
    proof {
        crate::procfs::lemma_views_index_pub(ls@, 0);
    }
    let rl = trim_end_cr_exec(&ls[0]);
    let t = crate::text::split_tokens(&rl);
    let method = if t.len() > 0 {
        proof { crate::procfs::lemma_views_index_pub(t@, 0); }
        string_of(&t[0])
    } else {
        String::from_str("GET")
    };
    let target = if t.len() > 1 {
        proof { crate::procfs::lemma_views_index_pub(t@, 1); }
        slice_chars(&t[1], 0, t[1].len())
    } else {
        chars_of("/")
    };
    assert(target@ == request_target(all));
    let q = find_char_from(&target, '?', 0);
    proof {
        lemma_find_from(target@, '?', 0);
    }
    let path = slice_chars(&target, 0, q);
    let query = if q < target.len() { slice_chars(&target, q + 1, target.len()) } else { Vec::new() };

    let mut content_length: usize = 0;
    match first_header_exec(&ls, "content-length:") {
        Some(i) => {
            let parts = split_char(&ls[i], ':');
            if parts.len() > 1 {
                proof { crate::procfs::lemma_views_index_pub(parts@, 1); }
                let val = crate::text::trim_chars(&parts[1]);
                assert(val@.subrange(0, val.len() as int) == val@);
                match parse_unsigned_range(&val, 0, val.len(), 10, usize::MAX as u64) {
                    Some(n) => {
                        content_length = n as usize;
                    },
                    None => {},
                }
            }
        },
        None => {},
    }
    let mut content_type: Vec<char> = Vec::new();
    match first_header_exec(&ls, "content-type:") {
        Some(i) => {
            let l = &ls[i];
            let j = find_char_from(l, ':', 0);
            proof {
                lemma_find_from(l@, ':', 0);
            }
            if j < l.len() {
                let rest = slice_chars(l, j + 1, l.len());
                content_type = crate::text::trim_chars(&rest);
            }
        },
        None => {},
    }
    Some(RequestHead {
        method,
        path: string_of(&path),
        query: string_of(&query),
        content_length,
        content_type: string_of(&content_type),
    })
}

} // verus!

verus! {
// ---------------------------------------------------------------------------
// Routing
// ---------------------------------------------------------------------------

/// The dashboard endpoint a request is served by.
#[derive(Debug, Clone, Copy, PartialEq, Eq, Structural)]
pub enum Route {
    ListFiles,
    StreamUpload,
    ProxyDownload,
    /// `GET /api/files/<name>`.
    FileDownload,
    PendingTransfers,
    SystemMetrics,
    TransferStatus,
    TransferProgress,
    SenderTransferProgress,
    SendToDevice,
    DownloadFromDevice,
    ReceiveFile,
    DashboardPage,
    BenchmarkMetrics,
    Devices,
    InitiateUdp,
    Notify,
    ClipboardGet,
    ClipboardSet,
    Exec,
    UploadAndSend,
    SendFile,
    GetFile,
    ShareFileLan,
    TransferHistory,
    TransferReport,
    TransferWaterfall,
    Handshake,
    Telemetry,
    ProtocolStats,
    HealthScore,
    Thermal,
    NetworkPath,
    StorageForecast,
    CompressionAnalytics,
    ExportSession,
    BottleneckReport,
    ProcessMetrics,
    NodeIdentity,
    ReportProgress,
    SenderProgress,
    Capabilities,
    ControlStream,
    BufferAnalysis,
    NotFound,
}

/// Payloads of small JSON control requests stay below this size.
pub open spec fn small_body_limit() -> usize {
    65536
}

/// The endpoint of a request, tried in the dashboard's order: streaming
/// endpoints first, then the JSON endpoints.
/// The endpoint each route answers: its method and exact path (none for
/// file downloads, which answer every path under `/api/files/`, and for
/// the not-found answer).
pub open spec fn route_endpoint(r: Route) -> Option<(Seq<char>, Seq<char>)> {
    match r {
        Route::ListFiles => Some(("GET"@, "/api/list-files"@)),
        Route::StreamUpload => Some(("POST"@, "/api/stream-upload"@)),
        Route::ProxyDownload => Some(("GET"@, "/api/proxy-download"@)),
        Route::PendingTransfers => Some(("GET"@, "/api/pending-transfers"@)),
        Route::SystemMetrics => Some(("GET"@, "/api/system-metrics"@)),
        Route::TransferStatus => Some(("GET"@, "/api/transfer-status"@)),
        Route::TransferProgress => Some(("GET"@, "/api/transfer-progress"@)),
        Route::SenderTransferProgress => Some(("GET"@, "/api/sender-transfer-progress"@)),
        Route::SendToDevice => Some(("POST"@, "/api/send-to-device"@)),
        Route::DownloadFromDevice => Some(("POST"@, "/api/download-from-device"@)),
        Route::ReceiveFile => Some(("POST"@, "/api/receive-file"@)),
        Route::DashboardPage => Some(("GET"@, "/"@)),
        Route::BenchmarkMetrics => Some(("GET"@, "/api/benchmark-metrics"@)),
        Route::Devices => Some(("GET"@, "/api/devices"@)),
        Route::InitiateUdp => Some(("POST"@, "/api/initiate-udp"@)),
        Route::Notify => Some(("POST"@, "/api/notify"@)),
        Route::ClipboardGet => Some(("POST"@, "/api/clipboard/get"@)),
        Route::ClipboardSet => Some(("POST"@, "/api/clipboard/set"@)),
        Route::Exec => Some(("POST"@, "/api/exec"@)),
        Route::UploadAndSend => Some(("POST"@, "/api/upload-and-send"@)),
        Route::SendFile => Some(("POST"@, "/api/send-file"@)),
        Route::GetFile => Some(("POST"@, "/api/get-file"@)),
        Route::ShareFileLan => Some(("POST"@, "/api/share-file-lan"@)),
        Route::TransferHistory => Some(("GET"@, "/api/transfer-history"@)),
        Route::TransferReport => Some(("GET"@, "/api/transfer-report"@)),
        Route::TransferWaterfall => Some(("GET"@, "/api/transfer-waterfall"@)),
        Route::Handshake => Some(("POST"@, "/api/handshake"@)),
        Route::Telemetry => Some(("GET"@, "/api/telemetry"@)),
        Route::ProtocolStats => Some(("GET"@, "/api/protocol-stats"@)),
        Route::HealthScore => Some(("GET"@, "/api/health-score"@)),
        Route::Thermal => Some(("GET"@, "/api/thermal"@)),
        Route::NetworkPath => Some(("GET"@, "/api/network-path"@)),
        Route::StorageForecast => Some(("GET"@, "/api/storage-forecast"@)),
        Route::CompressionAnalytics => Some(("GET"@, "/api/compression-analytics"@)),
        Route::ExportSession => Some(("GET"@, "/api/export-session"@)),
        Route::BottleneckReport => Some(("GET"@, "/api/bottleneck"@)),
        Route::ProcessMetrics => Some(("GET"@, "/api/process-metrics"@)),
        Route::NodeIdentity => Some(("GET"@, "/api/node-identity"@)),
        Route::ReportProgress => Some(("POST"@, "/api/report-progress"@)),
        Route::SenderProgress => Some(("GET"@, "/api/sender-progress"@)),
        Route::Capabilities => Some(("GET"@, "/api/capabilities"@)),
        Route::ControlStream => Some(("GET"@, "/api/control-stream"@)),
        Route::BufferAnalysis => Some(("GET"@, "/api/buffer-analysis"@)),
        Route::FileDownload => None,
        Route::NotFound => None,
    }
}

/// Whether a route only answers requests with a body of 1 byte up to 64 KB.
pub open spec fn needs_small_body(r: Route) -> bool {
    r == Route::SendToDevice || r == Route::DownloadFromDevice
}

/// Each route is reached only from its own endpoint: a request routed to
/// `r` has the method and path of `r`'s endpoint (file downloads: `GET`
/// under `/api/files/`), so distinct endpoints never share a handler.
pub proof fn law_route_reached_only_from_its_endpoint(method: Seq<char>, path: Seq<char>, content_length: usize)
    ensures
        ({
            let r = route_of(method, path, content_length);
            &&& r != Route::NotFound && r != Route::FileDownload ==> route_endpoint(r) == Some((method, path))
            &&& r == Route::FileDownload ==> method == "GET"@ && starts_with(path, "/api/files/"@)
            &&& needs_small_body(r) ==> 0 < content_length < 65536
        }),
{
}

/// Every endpoint reaches its own route: a request with the method and
/// path of `r`'s endpoint (and, where `r` needs one, a body of 1 byte up to
/// 64 KB) is routed to `r`.
pub proof fn law_endpoint_reaches_its_route(r: Route, content_length: usize)
    requires
        route_endpoint(r) is Some,
        needs_small_body(r) ==> 0 < content_length < 65536,
    ensures
        route_of(route_endpoint(r).unwrap().0, route_endpoint(r).unwrap().1, content_length) == r,
{
    match r {
        Route::ListFiles => {
            reveal_strlit("/api/list-files");
            reveal_strlit("GET");
            reveal_strlit("POST");
            assert("GET"@.len() != "POST"@.len());
        },
        Route::StreamUpload => {
            reveal_strlit("/api/stream-upload");
            reveal_strlit("GET");
            reveal_strlit("POST");
            assert("GET"@.len() != "POST"@.len());
        },
        Route::ProxyDownload => {
            reveal_strlit("/api/list-files");
            reveal_strlit("/api/proxy-download");
            reveal_strlit("GET");
            reveal_strlit("POST");
            assert("GET"@.len() != "POST"@.len());
            assert("/api/proxy-download"@.len() != "/api/list-files"@.len());
        },
        Route::PendingTransfers => {
            reveal_strlit("/api/files/");
            reveal_strlit("/api/list-files");
            reveal_strlit("/api/pending-transfers");
            reveal_strlit("/api/proxy-download");
            reveal_strlit("GET");
            reveal_strlit("POST");
            assert("GET"@.len() != "POST"@.len());
            assert("/api/pending-transfers"@.len() != "/api/list-files"@.len());
            assert("/api/pending-transfers"@.len() != "/api/proxy-download"@.len());
            assert("/api/pending-transfers"@.subrange(0, 11)[5] != "/api/files/"@[5]);
        },
        Route::SystemMetrics => {
            reveal_strlit("/api/files/");
            reveal_strlit("/api/list-files");
            reveal_strlit("/api/pending-transfers");
            reveal_strlit("/api/proxy-download");
            reveal_strlit("/api/system-metrics");
            reveal_strlit("GET");
            reveal_strlit("POST");
            assert("GET"@.len() != "POST"@.len());
            assert("/api/system-metrics"@.len() != "/api/list-files"@.len());
            assert("/api/system-metrics"@[5] != "/api/proxy-download"@[5]);
            assert("/api/system-metrics"@.subrange(0, 11)[5] != "/api/files/"@[5]);
            assert("/api/system-metrics"@.len() != "/api/pending-transfers"@.len());
        },
        Route::TransferStatus => {
            reveal_strlit("/api/files/");
            reveal_strlit("/api/list-files");
            reveal_strlit("/api/pending-transfers");
            reveal_strlit("/api/proxy-download");
            reveal_strlit("/api/system-metrics");
            reveal_strlit("/api/transfer-status");
            reveal_strlit("GET");
            reveal_strlit("POST");
            assert("GET"@.len() != "POST"@.len());
            assert("/api/transfer-status"@.len() != "/api/list-files"@.len());
            assert("/api/transfer-status"@.len() != "/api/proxy-download"@.len());
            assert("/api/transfer-status"@.subrange(0, 11)[5] != "/api/files/"@[5]);
            assert("/api/transfer-status"@.len() != "/api/pending-transfers"@.len());
            assert("/api/transfer-status"@.len() != "/api/system-metrics"@.len());
        },
        Route::TransferProgress => {
            reveal_strlit("/api/files/");
            reveal_strlit("/api/list-files");
            reveal_strlit("/api/pending-transfers");
            reveal_strlit("/api/proxy-download");
            reveal_strlit("/api/system-metrics");
            reveal_strlit("/api/transfer-progress");
            reveal_strlit("/api/transfer-status");
            reveal_strlit("GET");
            reveal_strlit("POST");
            assert("GET"@.len() != "POST"@.len());
            assert("/api/transfer-progress"@.len() != "/api/list-files"@.len());
            assert("/api/transfer-progress"@.len() != "/api/proxy-download"@.len());
            assert("/api/transfer-progress"@.subrange(0, 11)[5] != "/api/files/"@[5]);
            assert("/api/transfer-progress"@[5] != "/api/pending-transfers"@[5]);
            assert("/api/transfer-progress"@.len() != "/api/system-metrics"@.len());
            assert("/api/transfer-progress"@.len() != "/api/transfer-status"@.len());
        },
        Route::SenderTransferProgress => {
            reveal_strlit("/api/files/");
            reveal_strlit("/api/list-files");
            reveal_strlit("/api/pending-transfers");
            reveal_strlit("/api/proxy-download");
            reveal_strlit("/api/sender-transfer-progress");
            reveal_strlit("/api/system-metrics");
            reveal_strlit("/api/transfer-progress");
            reveal_strlit("/api/transfer-status");
            reveal_strlit("GET");
            reveal_strlit("POST");
            assert("GET"@.len() != "POST"@.len());
            assert("/api/sender-transfer-progress"@.len() != "/api/list-files"@.len());
            assert("/api/sender-transfer-progress"@.len() != "/api/proxy-download"@.len());
            assert("/api/sender-transfer-progress"@.subrange(0, 11)[5] != "/api/files/"@[5]);
            assert("/api/sender-transfer-progress"@.len() != "/api/pending-transfers"@.len());
            assert("/api/sender-transfer-progress"@.len() != "/api/system-metrics"@.len());
            assert("/api/sender-transfer-progress"@.len() != "/api/transfer-status"@.len());
            assert("/api/sender-transfer-progress"@.len() != "/api/transfer-progress"@.len());
        },
        Route::SendToDevice => {
            reveal_strlit("/api/send-to-device");
            reveal_strlit("/api/stream-upload");
            reveal_strlit("GET");
            reveal_strlit("POST");
            assert("GET"@.len() != "POST"@.len());
            assert("/api/send-to-device"@.len() != "/api/stream-upload"@.len());
        },
        Route::DownloadFromDevice => {
            reveal_strlit("/api/download-from-device");
            reveal_strlit("/api/send-to-device");
            reveal_strlit("/api/stream-upload");
            reveal_strlit("GET");
            reveal_strlit("POST");
            assert("GET"@.len() != "POST"@.len());
            assert("/api/download-from-device"@.len() != "/api/stream-upload"@.len());
            assert("/api/download-from-device"@.len() != "/api/send-to-device"@.len());
        },
        Route::ReceiveFile => {
            reveal_strlit("/api/download-from-device");
            reveal_strlit("/api/receive-file");
            reveal_strlit("/api/send-to-device");
            reveal_strlit("/api/stream-upload");
            reveal_strlit("GET");
            reveal_strlit("POST");
            assert("GET"@.len() != "POST"@.len());
            assert("/api/receive-file"@.len() != "/api/stream-upload"@.len());
            assert("/api/receive-file"@.len() != "/api/send-to-device"@.len());
            assert("/api/receive-file"@.len() != "/api/download-from-device"@.len());
        },
        Route::DashboardPage => {
            reveal_strlit("/");
            reveal_strlit("/api/files/");
            reveal_strlit("/api/list-files");
            reveal_strlit("/api/pending-transfers");
            reveal_strlit("/api/proxy-download");
            reveal_strlit("/api/sender-transfer-progress");
            reveal_strlit("/api/system-metrics");
            reveal_strlit("/api/transfer-progress");
            reveal_strlit("/api/transfer-status");
            reveal_strlit("GET");
            reveal_strlit("POST");
            assert("GET"@.len() != "POST"@.len());
            assert("/"@.len() != "/api/list-files"@.len());
            assert("/"@.len() != "/api/proxy-download"@.len());
            assert("/"@.len() < "/api/files/"@.len());
            assert("/"@.len() != "/api/pending-transfers"@.len());
            assert("/"@.len() != "/api/system-metrics"@.len());
            assert("/"@.len() != "/api/transfer-status"@.len());
            assert("/"@.len() != "/api/transfer-progress"@.len());
            assert("/"@.len() != "/api/sender-transfer-progress"@.len());
        },
        Route::BenchmarkMetrics => {
            reveal_strlit("/");
            reveal_strlit("/api/benchmark-metrics");
            reveal_strlit("/api/files/");
            reveal_strlit("/api/list-files");
            reveal_strlit("/api/pending-transfers");
            reveal_strlit("/api/proxy-download");
            reveal_strlit("/api/sender-transfer-progress");
            reveal_strlit("/api/system-metrics");
            reveal_strlit("/api/transfer-progress");
            reveal_strlit("/api/transfer-status");
            reveal_strlit("GET");
            reveal_strlit("POST");
            assert("GET"@.len() != "POST"@.len());
            assert("/api/benchmark-metrics"@.len() != "/api/list-files"@.len());
            assert("/api/benchmark-metrics"@.len() != "/api/proxy-download"@.len());
            assert("/api/benchmark-metrics"@.subrange(0, 11)[5] != "/api/files/"@[5]);
            assert("/api/benchmark-metrics"@[5] != "/api/pending-transfers"@[5]);
            assert("/api/benchmark-metrics"@.len() != "/api/system-metrics"@.len());
            assert("/api/benchmark-metrics"@.len() != "/api/transfer-status"@.len());
            assert("/api/benchmark-metrics"@[5] != "/api/transfer-progress"@[5]);
            assert("/api/benchmark-metrics"@.len() != "/api/sender-transfer-progress"@.len());
            assert("/api/benchmark-metrics"@.len() != "/"@.len());
        },
        Route::Devices => {
            reveal_strlit("/");
            reveal_strlit("/api/benchmark-metrics");
            reveal_strlit("/api/devices");
            reveal_strlit("/api/files/");
            reveal_strlit("/api/list-files");
            reveal_strlit("/api/pending-transfers");
            reveal_strlit("/api/proxy-download");
            reveal_strlit("/api/sender-transfer-progress");
            reveal_strlit("/api/system-metrics");
            reveal_strlit("/api/transfer-progress");
            reveal_strlit("/api/transfer-status");
            reveal_strlit("GET");
            reveal_strlit("POST");
            assert("GET"@.len() != "POST"@.len());
            assert("/api/devices"@.len() != "/api/list-files"@.len());
            assert("/api/devices"@.len() != "/api/proxy-download"@.len());
            assert("/api/devices"@.subrange(0, 11)[5] != "/api/files/"@[5]);
            assert("/api/devices"@.len() != "/api/pending-transfers"@.len());
            assert("/api/devices"@.len() != "/api/system-metrics"@.len());
            assert("/api/devices"@.len() != "/api/transfer-status"@.len());
            assert("/api/devices"@.len() != "/api/transfer-progress"@.len());
            assert("/api/devices"@.len() != "/api/sender-transfer-progress"@.len());
            assert("/api/devices"@.len() != "/"@.len());
            assert("/api/devices"@.len() != "/api/benchmark-metrics"@.len());
        },
        Route::InitiateUdp => {
            reveal_strlit("/api/download-from-device");
            reveal_strlit("/api/initiate-udp");
            reveal_strlit("/api/receive-file");
            reveal_strlit("/api/send-to-device");
            reveal_strlit("/api/stream-upload");
            reveal_strlit("GET");
            reveal_strlit("POST");
            assert("GET"@.len() != "POST"@.len());
            assert("/api/initiate-udp"@.len() != "/api/stream-upload"@.len());
            assert("/api/initiate-udp"@.len() != "/api/send-to-device"@.len());
            assert("/api/initiate-udp"@.len() != "/api/download-from-device"@.len());
            assert("/api/initiate-udp"@[5] != "/api/receive-file"@[5]);
        },
        Route::Notify => {
            reveal_strlit("/api/download-from-device");
            reveal_strlit("/api/initiate-udp");
            reveal_strlit("/api/notify");
            reveal_strlit("/api/receive-file");
            reveal_strlit("/api/send-to-device");
            reveal_strlit("/api/stream-upload");
            reveal_strlit("GET");
            reveal_strlit("POST");
            assert("GET"@.len() != "POST"@.len());
            assert("/api/notify"@.len() != "/api/stream-upload"@.len());
            assert("/api/notify"@.len() != "/api/send-to-device"@.len());
            assert("/api/notify"@.len() != "/api/download-from-device"@.len());
            assert("/api/notify"@.len() != "/api/receive-file"@.len());
            assert("/api/notify"@.len() != "/api/initiate-udp"@.len());
        },
        Route::ClipboardGet => {
            reveal_strlit("/api/clipboard/get");
            reveal_strlit("/api/download-from-device");
            reveal_strlit("/api/initiate-udp");
            reveal_strlit("/api/notify");
            reveal_strlit("/api/receive-file");
            reveal_strlit("/api/send-to-device");
            reveal_strlit("/api/stream-upload");
            reveal_strlit("GET");
            reveal_strlit("POST");
            assert("GET"@.len() != "POST"@.len());
            assert("/api/clipboard/get"@[5] != "/api/stream-upload"@[5]);
            assert("/api/clipboard/get"@.len() != "/api/send-to-device"@.len());
            assert("/api/clipboard/get"@.len() != "/api/download-from-device"@.len());
            assert("/api/clipboard/get"@.len() != "/api/receive-file"@.len());
            assert("/api/clipboard/get"@.len() != "/api/initiate-udp"@.len());
            assert("/api/clipboard/get"@.len() != "/api/notify"@.len());
        },
        Route::ClipboardSet => {
            reveal_strlit("/api/clipboard/get");
            reveal_strlit("/api/clipboard/set");
            reveal_strlit("/api/download-from-device");
            reveal_strlit("/api/initiate-udp");
            reveal_strlit("/api/notify");
            reveal_strlit("/api/receive-file");
            reveal_strlit("/api/send-to-device");
            reveal_strlit("/api/stream-upload");
            reveal_strlit("GET");
            reveal_strlit("POST");
            assert("GET"@.len() != "POST"@.len());
            assert("/api/clipboard/set"@[5] != "/api/stream-upload"@[5]);
            assert("/api/clipboard/set"@.len() != "/api/send-to-device"@.len());
            assert("/api/clipboard/set"@.len() != "/api/download-from-device"@.len());
            assert("/api/clipboard/set"@.len() != "/api/receive-file"@.len());
            assert("/api/clipboard/set"@.len() != "/api/initiate-udp"@.len());
            assert("/api/clipboard/set"@.len() != "/api/notify"@.len());
            assert("/api/clipboard/set"@[15] != "/api/clipboard/get"@[15]);
        },
        Route::Exec => {
            reveal_strlit("/api/clipboard/get");
            reveal_strlit("/api/clipboard/set");
            reveal_strlit("/api/download-from-device");
            reveal_strlit("/api/exec");
            reveal_strlit("/api/initiate-udp");
            reveal_strlit("/api/notify");
            reveal_strlit("/api/receive-file");
            reveal_strlit("/api/send-to-device");
            reveal_strlit("/api/stream-upload");
            reveal_strlit("GET");
            reveal_strlit("POST");
            assert("GET"@.len() != "POST"@.len());
            assert("/api/exec"@.len() != "/api/stream-upload"@.len());
            assert("/api/exec"@.len() != "/api/send-to-device"@.len());
            assert("/api/exec"@.len() != "/api/download-from-device"@.len());
            assert("/api/exec"@.len() != "/api/receive-file"@.len());
            assert("/api/exec"@.len() != "/api/initiate-udp"@.len());
            assert("/api/exec"@.len() != "/api/notify"@.len());
            assert("/api/exec"@.len() != "/api/clipboard/get"@.len());
            assert("/api/exec"@.len() != "/api/clipboard/set"@.len());
        },
        Route::UploadAndSend => {
            reveal_strlit("/api/clipboard/get");
            reveal_strlit("/api/clipboard/set");
            reveal_strlit("/api/download-from-device");
            reveal_strlit("/api/exec");
            reveal_strlit("/api/initiate-udp");
            reveal_strlit("/api/notify");
            reveal_strlit("/api/receive-file");
            reveal_strlit("/api/send-to-device");
            reveal_strlit("/api/stream-upload");
            reveal_strlit("/api/upload-and-send");
            reveal_strlit("GET");
            reveal_strlit("POST");
            assert("GET"@.len() != "POST"@.len());
            assert("/api/upload-and-send"@.len() != "/api/stream-upload"@.len());
            assert("/api/upload-and-send"@.len() != "/api/send-to-device"@.len());
            assert("/api/upload-and-send"@.len() != "/api/download-from-device"@.len());
            assert("/api/upload-and-send"@.len() != "/api/receive-file"@.len());
            assert("/api/upload-and-send"@.len() != "/api/initiate-udp"@.len());
            assert("/api/upload-and-send"@.len() != "/api/notify"@.len());
            assert("/api/upload-and-send"@.len() != "/api/clipboard/get"@.len());
            assert("/api/upload-and-send"@.len() != "/api/clipboard/set"@.len());
            assert("/api/upload-and-send"@.len() != "/api/exec"@.len());
        },
        Route::SendFile => {
            reveal_strlit("/api/clipboard/get");
            reveal_strlit("/api/clipboard/set");
            reveal_strlit("/api/download-from-device");
            reveal_strlit("/api/exec");
            reveal_strlit("/api/initiate-udp");
            reveal_strlit("/api/notify");
            reveal_strlit("/api/receive-file");
            reveal_strlit("/api/send-file");
            reveal_strlit("/api/send-to-device");
            reveal_strlit("/api/stream-upload");
            reveal_strlit("/api/upload-and-send");
            reveal_strlit("GET");
            reveal_strlit("POST");
            assert("GET"@.len() != "POST"@.len());
            assert("/api/send-file"@.len() != "/api/stream-upload"@.len());
            assert("/api/send-file"@.len() != "/api/send-to-device"@.len());
            assert("/api/send-file"@.len() != "/api/download-from-device"@.len());
            assert("/api/send-file"@.len() != "/api/receive-file"@.len());
            assert("/api/send-file"@.len() != "/api/initiate-udp"@.len());
            assert("/api/send-file"@.len() != "/api/notify"@.len());
            assert("/api/send-file"@.len() != "/api/clipboard/get"@.len());
            assert("/api/send-file"@.len() != "/api/clipboard/set"@.len());
            assert("/api/send-file"@.len() != "/api/exec"@.len());
            assert("/api/send-file"@.len() != "/api/upload-and-send"@.len());
        },
        Route::GetFile => {
            reveal_strlit("/api/clipboard/get");
            reveal_strlit("/api/clipboard/set");
            reveal_strlit("/api/download-from-device");
            reveal_strlit("/api/exec");
            reveal_strlit("/api/get-file");
            reveal_strlit("/api/initiate-udp");
            reveal_strlit("/api/notify");
            reveal_strlit("/api/receive-file");
            reveal_strlit("/api/send-file");
            reveal_strlit("/api/send-to-device");
            reveal_strlit("/api/stream-upload");
            reveal_strlit("/api/upload-and-send");
            reveal_strlit("GET");
            reveal_strlit("POST");
            assert("GET"@.len() != "POST"@.len());
            assert("/api/get-file"@.len() != "/api/stream-upload"@.len());
            assert("/api/get-file"@.len() != "/api/send-to-device"@.len());
            assert("/api/get-file"@.len() != "/api/download-from-device"@.len());
            assert("/api/get-file"@.len() != "/api/receive-file"@.len());
            assert("/api/get-file"@.len() != "/api/initiate-udp"@.len());
            assert("/api/get-file"@.len() != "/api/notify"@.len());
            assert("/api/get-file"@.len() != "/api/clipboard/get"@.len());
            assert("/api/get-file"@.len() != "/api/clipboard/set"@.len());
            assert("/api/get-file"@.len() != "/api/exec"@.len());
            assert("/api/get-file"@.len() != "/api/upload-and-send"@.len());
            assert("/api/get-file"@.len() != "/api/send-file"@.len());
        },
        Route::ShareFileLan => {
            reveal_strlit("/api/clipboard/get");
            reveal_strlit("/api/clipboard/set");
            reveal_strlit("/api/download-from-device");
            reveal_strlit("/api/exec");
            reveal_strlit("/api/get-file");
            reveal_strlit("/api/initiate-udp");
            reveal_strlit("/api/notify");
            reveal_strlit("/api/receive-file");
            reveal_strlit("/api/send-file");
            reveal_strlit("/api/send-to-device");
            reveal_strlit("/api/share-file-lan");
            reveal_strlit("/api/stream-upload");
            reveal_strlit("/api/upload-and-send");
            reveal_strlit("GET");
            reveal_strlit("POST");
            assert("GET"@.len() != "POST"@.len());
            assert("/api/share-file-lan"@.len() != "/api/stream-upload"@.len());
            assert("/api/share-file-lan"@[6] != "/api/send-to-device"@[6]);
            assert("/api/share-file-lan"@.len() != "/api/download-from-device"@.len());
            assert("/api/share-file-lan"@.len() != "/api/receive-file"@.len());
            assert("/api/share-file-lan"@.len() != "/api/initiate-udp"@.len());
            assert("/api/share-file-lan"@.len() != "/api/notify"@.len());
            assert("/api/share-file-lan"@.len() != "/api/clipboard/get"@.len());
            assert("/api/share-file-lan"@.len() != "/api/clipboard/set"@.len());
            assert("/api/share-file-lan"@.len() != "/api/exec"@.len());
            assert("/api/share-file-lan"@.len() != "/api/upload-and-send"@.len());
            assert("/api/share-file-lan"@.len() != "/api/send-file"@.len());
            assert("/api/share-file-lan"@.len() != "/api/get-file"@.len());
        },
        Route::TransferHistory => {
            reveal_strlit("/");
            reveal_strlit("/api/benchmark-metrics");
            reveal_strlit("/api/devices");
            reveal_strlit("/api/files/");
            reveal_strlit("/api/list-files");
            reveal_strlit("/api/pending-transfers");
            reveal_strlit("/api/proxy-download");
            reveal_strlit("/api/sender-transfer-progress");
            reveal_strlit("/api/system-metrics");
            reveal_strlit("/api/transfer-history");
            reveal_strlit("/api/transfer-progress");
            reveal_strlit("/api/transfer-status");
            reveal_strlit("GET");
            reveal_strlit("POST");
            assert("GET"@.len() != "POST"@.len());
            assert("/api/transfer-history"@.len() != "/api/list-files"@.len());
            assert("/api/transfer-history"@.len() != "/api/proxy-download"@.len());
            assert("/api/transfer-history"@.subrange(0, 11)[5] != "/api/files/"@[5]);
            assert("/api/transfer-history"@.len() != "/api/pending-transfers"@.len());
            assert("/api/transfer-history"@.len() != "/api/system-metrics"@.len());
            assert("/api/transfer-history"@.len() != "/api/transfer-status"@.len());
            assert("/api/transfer-history"@.len() != "/api/transfer-progress"@.len());
            assert("/api/transfer-history"@.len() != "/api/sender-transfer-progress"@.len());
            assert("/api/transfer-history"@.len() != "/"@.len());
            assert("/api/transfer-history"@.len() != "/api/benchmark-metrics"@.len());
            assert("/api/transfer-history"@.len() != "/api/devices"@.len());
        },
        Route::TransferReport => {
            reveal_strlit("/");
            reveal_strlit("/api/benchmark-metrics");
            reveal_strlit("/api/devices");
            reveal_strlit("/api/files/");
            reveal_strlit("/api/list-files");
            reveal_strlit("/api/pending-transfers");
            reveal_strlit("/api/proxy-download");
            reveal_strlit("/api/sender-transfer-progress");
            reveal_strlit("/api/system-metrics");
            reveal_strlit("/api/transfer-history");
            reveal_strlit("/api/transfer-progress");
            reveal_strlit("/api/transfer-report");
            reveal_strlit("/api/transfer-status");
            reveal_strlit("GET");
            reveal_strlit("POST");
            assert("GET"@.len() != "POST"@.len());
            assert("/api/transfer-report"@.len() != "/api/list-files"@.len());
            assert("/api/transfer-report"@.len() != "/api/proxy-download"@.len());
            assert("/api/transfer-report"@.subrange(0, 11)[5] != "/api/files/"@[5]);
            assert("/api/transfer-report"@.len() != "/api/pending-transfers"@.len());
            assert("/api/transfer-report"@.len() != "/api/system-metrics"@.len());
            assert("/api/transfer-report"@[14] != "/api/transfer-status"@[14]);
            assert("/api/transfer-report"@.len() != "/api/transfer-progress"@.len());
            assert("/api/transfer-report"@.len() != "/api/sender-transfer-progress"@.len());
            assert("/api/transfer-report"@.len() != "/"@.len());
            assert("/api/transfer-report"@.len() != "/api/benchmark-metrics"@.len());
            assert("/api/transfer-report"@.len() != "/api/devices"@.len());
            assert("/api/transfer-report"@.len() != "/api/transfer-history"@.len());
        },
        Route::TransferWaterfall => {
            reveal_strlit("/");
            reveal_strlit("/api/benchmark-metrics");
            reveal_strlit("/api/devices");
            reveal_strlit("/api/files/");
            reveal_strlit("/api/list-files");
            reveal_strlit("/api/pending-transfers");
            reveal_strlit("/api/proxy-download");
            reveal_strlit("/api/sender-transfer-progress");
            reveal_strlit("/api/system-metrics");
            reveal_strlit("/api/transfer-history");
            reveal_strlit("/api/transfer-progress");
            reveal_strlit("/api/transfer-report");
            reveal_strlit("/api/transfer-status");
            reveal_strlit("/api/transfer-waterfall");
            reveal_strlit("GET");
            reveal_strlit("POST");
            assert("GET"@.len() != "POST"@.len());
            assert("/api/transfer-waterfall"@.len() != "/api/list-files"@.len());
            assert("/api/transfer-waterfall"@.len() != "/api/proxy-download"@.len());
            assert("/api/transfer-waterfall"@.subrange(0, 11)[5] != "/api/files/"@[5]);
            assert("/api/transfer-waterfall"@.len() != "/api/pending-transfers"@.len());
            assert("/api/transfer-waterfall"@.len() != "/api/system-metrics"@.len());
            assert("/api/transfer-waterfall"@.len() != "/api/transfer-status"@.len());
            assert("/api/transfer-waterfall"@.len() != "/api/transfer-progress"@.len());
            assert("/api/transfer-waterfall"@.len() != "/api/sender-transfer-progress"@.len());
            assert("/api/transfer-waterfall"@.len() != "/"@.len());
            assert("/api/transfer-waterfall"@.len() != "/api/benchmark-metrics"@.len());
            assert("/api/transfer-waterfall"@.len() != "/api/devices"@.len());
            assert("/api/transfer-waterfall"@.len() != "/api/transfer-history"@.len());
            assert("/api/transfer-waterfall"@.len() != "/api/transfer-report"@.len());
        },
        Route::Handshake => {
            reveal_strlit("/api/clipboard/get");
            reveal_strlit("/api/clipboard/set");
            reveal_strlit("/api/download-from-device");
            reveal_strlit("/api/exec");
            reveal_strlit("/api/get-file");
            reveal_strlit("/api/handshake");
            reveal_strlit("/api/initiate-udp");
            reveal_strlit("/api/notify");
            reveal_strlit("/api/receive-file");
            reveal_strlit("/api/send-file");
            reveal_strlit("/api/send-to-device");
            reveal_strlit("/api/share-file-lan");
            reveal_strlit("/api/stream-upload");
            reveal_strlit("/api/upload-and-send");
            reveal_strlit("GET");
            reveal_strlit("POST");
            assert("GET"@.len() != "POST"@.len());
            assert("/api/handshake"@.len() != "/api/stream-upload"@.len());
            assert("/api/handshake"@.len() != "/api/send-to-device"@.len());
            assert("/api/handshake"@.len() != "/api/download-from-device"@.len());
            assert("/api/handshake"@.len() != "/api/receive-file"@.len());
            assert("/api/handshake"@.len() != "/api/initiate-udp"@.len());
            assert("/api/handshake"@.len() != "/api/notify"@.len());
            assert("/api/handshake"@.len() != "/api/clipboard/get"@.len());
            assert("/api/handshake"@.len() != "/api/clipboard/set"@.len());
            assert("/api/handshake"@.len() != "/api/exec"@.len());
            assert("/api/handshake"@.len() != "/api/upload-and-send"@.len());
            assert("/api/handshake"@[5] != "/api/send-file"@[5]);
            assert("/api/handshake"@.len() != "/api/get-file"@.len());
            assert("/api/handshake"@.len() != "/api/share-file-lan"@.len());
        },
        Route::Telemetry => {
            reveal_strlit("/");
            reveal_strlit("/api/benchmark-metrics");
            reveal_strlit("/api/devices");
            reveal_strlit("/api/files/");
            reveal_strlit("/api/list-files");
            reveal_strlit("/api/pending-transfers");
            reveal_strlit("/api/proxy-download");
            reveal_strlit("/api/sender-transfer-progress");
            reveal_strlit("/api/system-metrics");
            reveal_strlit("/api/telemetry");
            reveal_strlit("/api/transfer-history");
            reveal_strlit("/api/transfer-progress");
            reveal_strlit("/api/transfer-report");
            reveal_strlit("/api/transfer-status");
            reveal_strlit("/api/transfer-waterfall");
            reveal_strlit("GET");
            reveal_strlit("POST");
            assert("GET"@.len() != "POST"@.len());
            assert("/api/telemetry"@.len() != "/api/list-files"@.len());
            assert("/api/telemetry"@.len() != "/api/proxy-download"@.len());
            assert("/api/telemetry"@.subrange(0, 11)[5] != "/api/files/"@[5]);
            assert("/api/telemetry"@.len() != "/api/pending-transfers"@.len());
            assert("/api/telemetry"@.len() != "/api/system-metrics"@.len());
            assert("/api/telemetry"@.len() != "/api/transfer-status"@.len());
            assert("/api/telemetry"@.len() != "/api/transfer-progress"@.len());
            assert("/api/telemetry"@.len() != "/api/sender-transfer-progress"@.len());
            assert("/api/telemetry"@.len() != "/"@.len());
            assert("/api/telemetry"@.len() != "/api/benchmark-metrics"@.len());
            assert("/api/telemetry"@.len() != "/api/devices"@.len());
            assert("/api/telemetry"@.len() != "/api/transfer-history"@.len());
            assert("/api/telemetry"@.len() != "/api/transfer-report"@.len());
            assert("/api/telemetry"@.len() != "/api/transfer-waterfall"@.len());
        },
        Route::ProtocolStats => {
            reveal_strlit("/");
            reveal_strlit("/api/benchmark-metrics");
            reveal_strlit("/api/devices");
            reveal_strlit("/api/files/");
            reveal_strlit("/api/list-files");
            reveal_strlit("/api/pending-transfers");
            reveal_strlit("/api/protocol-stats");
            reveal_strlit("/api/proxy-download");
            reveal_strlit("/api/sender-transfer-progress");
            reveal_strlit("/api/system-metrics");
            reveal_strlit("/api/telemetry");
            reveal_strlit("/api/transfer-history");
            reveal_strlit("/api/transfer-progress");
            reveal_strlit("/api/transfer-report");
            reveal_strlit("/api/transfer-status");
            reveal_strlit("/api/transfer-waterfall");
            reveal_strlit("GET");
            reveal_strlit("POST");
            assert("GET"@.len() != "POST"@.len());
            assert("/api/protocol-stats"@.len() != "/api/list-files"@.len());
            assert("/api/protocol-stats"@[8] != "/api/proxy-download"@[8]);
            assert("/api/protocol-stats"@.subrange(0, 11)[5] != "/api/files/"@[5]);
            assert("/api/protocol-stats"@.len() != "/api/pending-transfers"@.len());
            assert("/api/protocol-stats"@[5] != "/api/system-metrics"@[5]);
            assert("/api/protocol-stats"@.len() != "/api/transfer-status"@.len());
            assert("/api/protocol-stats"@.len() != "/api/transfer-progress"@.len());
            assert("/api/protocol-stats"@.len() != "/api/sender-transfer-progress"@.len());
            assert("/api/protocol-stats"@.len() != "/"@.len());
            assert("/api/protocol-stats"@.len() != "/api/benchmark-metrics"@.len());
            assert("/api/protocol-stats"@.len() != "/api/devices"@.len());
            assert("/api/protocol-stats"@.len() != "/api/transfer-history"@.len());
            assert("/api/protocol-stats"@.len() != "/api/transfer-report"@.len());
            assert("/api/protocol-stats"@.len() != "/api/transfer-waterfall"@.len());
            assert("/api/protocol-stats"@.len() != "/api/telemetry"@.len());
        },
        Route::HealthScore => {
            reveal_strlit("/");
            reveal_strlit("/api/benchmark-metrics");
            reveal_strlit("/api/devices");
            reveal_strlit("/api/files/");
            reveal_strlit("/api/health-score");
            reveal_strlit("/api/list-files");
            reveal_strlit("/api/pending-transfers");
            reveal_strlit("/api/protocol-stats");
            reveal_strlit("/api/proxy-download");
            reveal_strlit("/api/sender-transfer-progress");
            reveal_strlit("/api/system-metrics");
            reveal_strlit("/api/telemetry");
            reveal_strlit("/api/transfer-history");
            reveal_strlit("/api/transfer-progress");
            reveal_strlit("/api/transfer-report");
            reveal_strlit("/api/transfer-status");
            reveal_strlit("/api/transfer-waterfall");
            reveal_strlit("GET");
            reveal_strlit("POST");
            assert("GET"@.len() != "POST"@.len());
            assert("/api/health-score"@.len() != "/api/list-files"@.len());
            assert("/api/health-score"@.len() != "/api/proxy-download"@.len());
            assert("/api/health-score"@.subrange(0, 11)[5] != "/api/files/"@[5]);
            assert("/api/health-score"@.len() != "/api/pending-transfers"@.len());
            assert("/api/health-score"@.len() != "/api/system-metrics"@.len());
            assert("/api/health-score"@.len() != "/api/transfer-status"@.len());
            assert("/api/health-score"@.len() != "/api/transfer-progress"@.len());
            assert("/api/health-score"@.len() != "/api/sender-transfer-progress"@.len());
            assert("/api/health-score"@.len() != "/"@.len());
            assert("/api/health-score"@.len() != "/api/benchmark-metrics"@.len());
            assert("/api/health-score"@.len() != "/api/devices"@.len());
            assert("/api/health-score"@.len() != "/api/transfer-history"@.len());
            assert("/api/health-score"@.len() != "/api/transfer-report"@.len());
            assert("/api/health-score"@.len() != "/api/transfer-waterfall"@.len());
            assert("/api/health-score"@.len() != "/api/telemetry"@.len());
            assert("/api/health-score"@.len() != "/api/protocol-stats"@.len());
        },
        Route::Thermal => {
            reveal_strlit("/");
            reveal_strlit("/api/benchmark-metrics");
            reveal_strlit("/api/devices");
            reveal_strlit("/api/files/");
            reveal_strlit("/api/health-score");
            reveal_strlit("/api/list-files");
            reveal_strlit("/api/pending-transfers");
            reveal_strlit("/api/protocol-stats");
            reveal_strlit("/api/proxy-download");
            reveal_strlit("/api/sender-transfer-progress");
            reveal_strlit("/api/system-metrics");
            reveal_strlit("/api/telemetry");
            reveal_strlit("/api/thermal");
            reveal_strlit("/api/transfer-history");
            reveal_strlit("/api/transfer-progress");
            reveal_strlit("/api/transfer-report");
            reveal_strlit("/api/transfer-status");
            reveal_strlit("/api/transfer-waterfall");
            reveal_strlit("GET");
            reveal_strlit("POST");
            assert("GET"@.len() != "POST"@.len());
            assert("/api/thermal"@.len() != "/api/list-files"@.len());
            assert("/api/thermal"@.len() != "/api/proxy-download"@.len());
            assert("/api/thermal"@.subrange(0, 11)[5] != "/api/files/"@[5]);
            assert("/api/thermal"@.len() != "/api/pending-transfers"@.len());
            assert("/api/thermal"@.len() != "/api/system-metrics"@.len());
            assert("/api/thermal"@.len() != "/api/transfer-status"@.len());
            assert("/api/thermal"@.len() != "/api/transfer-progress"@.len());
            assert("/api/thermal"@.len() != "/api/sender-transfer-progress"@.len());
            assert("/api/thermal"@.len() != "/"@.len());
            assert("/api/thermal"@.len() != "/api/benchmark-metrics"@.len());
            assert("/api/thermal"@[5] != "/api/devices"@[5]);
            assert("/api/thermal"@.len() != "/api/transfer-history"@.len());
            assert("/api/thermal"@.len() != "/api/transfer-report"@.len());
            assert("/api/thermal"@.len() != "/api/transfer-waterfall"@.len());
            assert("/api/thermal"@.len() != "/api/telemetry"@.len());
            assert("/api/thermal"@.len() != "/api/protocol-stats"@.len());
            assert("/api/thermal"@.len() != "/api/health-score"@.len());
        },
        Route::NetworkPath => {
            reveal_strlit("/");
            reveal_strlit("/api/benchmark-metrics");
            reveal_strlit("/api/devices");
            reveal_strlit("/api/files/");
            reveal_strlit("/api/health-score");
            reveal_strlit("/api/list-files");
            reveal_strlit("/api/network-path");
            reveal_strlit("/api/pending-transfers");
            reveal_strlit("/api/protocol-stats");
            reveal_strlit("/api/proxy-download");
            reveal_strlit("/api/sender-transfer-progress");
            reveal_strlit("/api/system-metrics");
            reveal_strlit("/api/telemetry");
            reveal_strlit("/api/thermal");
            reveal_strlit("/api/transfer-history");
            reveal_strlit("/api/transfer-progress");
            reveal_strlit("/api/transfer-report");
            reveal_strlit("/api/transfer-status");
            reveal_strlit("/api/transfer-waterfall");
            reveal_strlit("GET");
            reveal_strlit("POST");
            assert("GET"@.len() != "POST"@.len());
            assert("/api/network-path"@.len() != "/api/list-files"@.len());
            assert("/api/network-path"@.len() != "/api/proxy-download"@.len());
            assert("/api/network-path"@.subrange(0, 11)[5] != "/api/files/"@[5]);
            assert("/api/network-path"@.len() != "/api/pending-transfers"@.len());
            assert("/api/network-path"@.len() != "/api/system-metrics"@.len());
            assert("/api/network-path"@.len() != "/api/transfer-status"@.len());
            assert("/api/network-path"@.len() != "/api/transfer-progress"@.len());
            assert("/api/network-path"@.len() != "/api/sender-transfer-progress"@.len());
            assert("/api/network-path"@.len() != "/"@.len());
            assert("/api/network-path"@.len() != "/api/benchmark-metrics"@.len());
            assert("/api/network-path"@.len() != "/api/devices"@.len());
            assert("/api/network-path"@.len() != "/api/transfer-history"@.len());
            assert("/api/network-path"@.len() != "/api/transfer-report"@.len());
            assert("/api/network-path"@.len() != "/api/transfer-waterfall"@.len());
            assert("/api/network-path"@.len() != "/api/telemetry"@.len());
            assert("/api/network-path"@.len() != "/api/protocol-stats"@.len());
            assert("/api/network-path"@[5] != "/api/health-score"@[5]);
            assert("/api/network-path"@.len() != "/api/thermal"@.len());
        },
        Route::StorageForecast => {
            reveal_strlit("/");
            reveal_strlit("/api/benchmark-metrics");
            reveal_strlit("/api/devices");
            reveal_strlit("/api/files/");
            reveal_strlit("/api/health-score");
            reveal_strlit("/api/list-files");
            reveal_strlit("/api/network-path");
            reveal_strlit("/api/pending-transfers");
            reveal_strlit("/api/protocol-stats");
            reveal_strlit("/api/proxy-download");
            reveal_strlit("/api/sender-transfer-progress");
            reveal_strlit("/api/storage-forecast");
            reveal_strlit("/api/system-metrics");
            reveal_strlit("/api/telemetry");
            reveal_strlit("/api/thermal");
            reveal_strlit("/api/transfer-history");
            reveal_strlit("/api/transfer-progress");
            reveal_strlit("/api/transfer-report");
            reveal_strlit("/api/transfer-status");
            reveal_strlit("/api/transfer-waterfall");
            reveal_strlit("GET");
            reveal_strlit("POST");
            assert("GET"@.len() != "POST"@.len());
            assert("/api/storage-forecast"@.len() != "/api/list-files"@.len());
            assert("/api/storage-forecast"@.len() != "/api/proxy-download"@.len());
            assert("/api/storage-forecast"@.subrange(0, 11)[5] != "/api/files/"@[5]);
            assert("/api/storage-forecast"@.len() != "/api/pending-transfers"@.len());
            assert("/api/storage-forecast"@.len() != "/api/system-metrics"@.len());
            assert("/api/storage-forecast"@.len() != "/api/transfer-status"@.len());
            assert("/api/storage-forecast"@.len() != "/api/transfer-progress"@.len());
            assert("/api/storage-forecast"@.len() != "/api/sender-transfer-progress"@.len());
            assert("/api/storage-forecast"@.len() != "/"@.len());
            assert("/api/storage-forecast"@.len() != "/api/benchmark-metrics"@.len());
            assert("/api/storage-forecast"@.len() != "/api/devices"@.len());
            assert("/api/storage-forecast"@[5] != "/api/transfer-history"@[5]);
            assert("/api/storage-forecast"@.len() != "/api/transfer-report"@.len());
            assert("/api/storage-forecast"@.len() != "/api/transfer-waterfall"@.len());
            assert("/api/storage-forecast"@.len() != "/api/telemetry"@.len());
            assert("/api/storage-forecast"@.len() != "/api/protocol-stats"@.len());
            assert("/api/storage-forecast"@.len() != "/api/health-score"@.len());
            assert("/api/storage-forecast"@.len() != "/api/thermal"@.len());
            assert("/api/storage-forecast"@.len() != "/api/network-path"@.len());
        },
        Route::CompressionAnalytics => {
            reveal_strlit("/");
            reveal_strlit("/api/benchmark-metrics");
            reveal_strlit("/api/compression-analytics");
            reveal_strlit("/api/devices");
            reveal_strlit("/api/files/");
            reveal_strlit("/api/health-score");
            reveal_strlit("/api/list-files");
            reveal_strlit("/api/network-path");
            reveal_strlit("/api/pending-transfers");
            reveal_strlit("/api/protocol-stats");
            reveal_strlit("/api/proxy-download");
            reveal_strlit("/api/sender-transfer-progress");
            reveal_strlit("/api/storage-forecast");
            reveal_strlit("/api/system-metrics");
            reveal_strlit("/api/telemetry");
            reveal_strlit("/api/thermal");
            reveal_strlit("/api/transfer-history");
            reveal_strlit("/api/transfer-progress");
            reveal_strlit("/api/transfer-report");
            reveal_strlit("/api/transfer-status");
            reveal_strlit("/api/transfer-waterfall");
            reveal_strlit("GET");
            reveal_strlit("POST");
            assert("GET"@.len() != "POST"@.len());
            assert("/api/compression-analytics"@.len() != "/api/list-files"@.len());
            assert("/api/compression-analytics"@.len() != "/api/proxy-download"@.len());
            assert("/api/compression-analytics"@.subrange(0, 11)[5] != "/api/files/"@[5]);
            assert("/api/compression-analytics"@.len() != "/api/pending-transfers"@.len());
            assert("/api/compression-analytics"@.len() != "/api/system-metrics"@.len());
            assert("/api/compression-analytics"@.len() != "/api/transfer-status"@.len());
            assert("/api/compression-analytics"@.len() != "/api/transfer-progress"@.len());
            assert("/api/compression-analytics"@.len() != "/api/sender-transfer-progress"@.len());
            assert("/api/compression-analytics"@.len() != "/"@.len());
            assert("/api/compression-analytics"@.len() != "/api/benchmark-metrics"@.len());
            assert("/api/compression-analytics"@.len() != "/api/devices"@.len());
            assert("/api/compression-analytics"@.len() != "/api/transfer-history"@.len());
            assert("/api/compression-analytics"@.len() != "/api/transfer-report"@.len());
            assert("/api/compression-analytics"@.len() != "/api/transfer-waterfall"@.len());
            assert("/api/compression-analytics"@.len() != "/api/telemetry"@.len());
            assert("/api/compression-analytics"@.len() != "/api/protocol-stats"@.len());
            assert("/api/compression-analytics"@.len() != "/api/health-score"@.len());
            assert("/api/compression-analytics"@.len() != "/api/thermal"@.len());
            assert("/api/compression-analytics"@.len() != "/api/network-path"@.len());
            assert("/api/compression-analytics"@.len() != "/api/storage-forecast"@.len());
        },
        Route::ExportSession => {
            reveal_strlit("/");
            reveal_strlit("/api/benchmark-metrics");
            reveal_strlit("/api/compression-analytics");
            reveal_strlit("/api/devices");
            reveal_strlit("/api/export-session");
            reveal_strlit("/api/files/");
            reveal_strlit("/api/health-score");
            reveal_strlit("/api/list-files");
            reveal_strlit("/api/network-path");
            reveal_strlit("/api/pending-transfers");
            reveal_strlit("/api/protocol-stats");
            reveal_strlit("/api/proxy-download");
            reveal_strlit("/api/sender-transfer-progress");
            reveal_strlit("/api/storage-forecast");
            reveal_strlit("/api/system-metrics");
            reveal_strlit("/api/telemetry");
            reveal_strlit("/api/thermal");
            reveal_strlit("/api/transfer-history");
            reveal_strlit("/api/transfer-progress");
            reveal_strlit("/api/transfer-report");
            reveal_strlit("/api/transfer-status");
            reveal_strlit("/api/transfer-waterfall");
            reveal_strlit("GET");
            reveal_strlit("POST");
            assert("GET"@.len() != "POST"@.len());
            assert("/api/export-session"@.len() != "/api/list-files"@.len());
            assert("/api/export-session"@[5] != "/api/proxy-download"@[5]);
            assert("/api/export-session"@.subrange(0, 11)[5] != "/api/files/"@[5]);
            assert("/api/export-session"@.len() != "/api/pending-transfers"@.len());
            assert("/api/export-session"@[5] != "/api/system-metrics"@[5]);
            assert("/api/export-session"@.len() != "/api/transfer-status"@.len());
            assert("/api/export-session"@.len() != "/api/transfer-progress"@.len());
            assert("/api/export-session"@.len() != "/api/sender-transfer-progress"@.len());
            assert("/api/export-session"@.len() != "/"@.len());
            assert("/api/export-session"@.len() != "/api/benchmark-metrics"@.len());
            assert("/api/export-session"@.len() != "/api/devices"@.len());
            assert("/api/export-session"@.len() != "/api/transfer-history"@.len());
            assert("/api/export-session"@.len() != "/api/transfer-report"@.len());
            assert("/api/export-session"@.len() != "/api/transfer-waterfall"@.len());
            assert("/api/export-session"@.len() != "/api/telemetry"@.len());
            assert("/api/export-session"@[5] != "/api/protocol-stats"@[5]);
            assert("/api/export-session"@.len() != "/api/health-score"@.len());
            assert("/api/export-session"@.len() != "/api/thermal"@.len());
            assert("/api/export-session"@.len() != "/api/network-path"@.len());
            assert("/api/export-session"@.len() != "/api/storage-forecast"@.len());
            assert("/api/export-session"@.len() != "/api/compression-analytics"@.len());
        },
        Route::BottleneckReport => {
            reveal_strlit("/");
            reveal_strlit("/api/benchmark-metrics");
            reveal_strlit("/api/bottleneck");
            reveal_strlit("/api/compression-analytics");
            reveal_strlit("/api/devices");
            reveal_strlit("/api/export-session");
            reveal_strlit("/api/files/");
            reveal_strlit("/api/health-score");
            reveal_strlit("/api/list-files");
            reveal_strlit("/api/network-path");
            reveal_strlit("/api/pending-transfers");
            reveal_strlit("/api/protocol-stats");
            reveal_strlit("/api/proxy-download");
            reveal_strlit("/api/sender-transfer-progress");
            reveal_strlit("/api/storage-forecast");
            reveal_strlit("/api/system-metrics");
            reveal_strlit("/api/telemetry");
            reveal_strlit("/api/thermal");
            reveal_strlit("/api/transfer-history");
            reveal_strlit("/api/transfer-progress");
            reveal_strlit("/api/transfer-report");
            reveal_strlit("/api/transfer-status");
            reveal_strlit("/api/transfer-waterfall");
            reveal_strlit("GET");
            reveal_strlit("POST");
            assert("GET"@.len() != "POST"@.len());
            assert("/api/bottleneck"@[5] != "/api/list-files"@[5]);
            assert("/api/bottleneck"@.len() != "/api/proxy-download"@.len());
            assert("/api/bottleneck"@.subrange(0, 11)[5] != "/api/files/"@[5]);
            assert("/api/bottleneck"@.len() != "/api/pending-transfers"@.len());
            assert("/api/bottleneck"@.len() != "/api/system-metrics"@.len());
            assert("/api/bottleneck"@.len() != "/api/transfer-status"@.len());
            assert("/api/bottleneck"@.len() != "/api/transfer-progress"@.len());
            assert("/api/bottleneck"@.len() != "/api/sender-transfer-progress"@.len());
            assert("/api/bottleneck"@.len() != "/"@.len());
            assert("/api/bottleneck"@.len() != "/api/benchmark-metrics"@.len());
            assert("/api/bottleneck"@.len() != "/api/devices"@.len());
            assert("/api/bottleneck"@.len() != "/api/transfer-history"@.len());
            assert("/api/bottleneck"@.len() != "/api/transfer-report"@.len());
            assert("/api/bottleneck"@.len() != "/api/transfer-waterfall"@.len());
            assert("/api/bottleneck"@.len() != "/api/telemetry"@.len());
            assert("/api/bottleneck"@.len() != "/api/protocol-stats"@.len());
            assert("/api/bottleneck"@.len() != "/api/health-score"@.len());
            assert("/api/bottleneck"@.len() != "/api/thermal"@.len());
            assert("/api/bottleneck"@.len() != "/api/network-path"@.len());
            assert("/api/bottleneck"@.len() != "/api/storage-forecast"@.len());
            assert("/api/bottleneck"@.len() != "/api/compression-analytics"@.len());
            assert("/api/bottleneck"@.len() != "/api/export-session"@.len());
        },
        Route::ProcessMetrics => {
            reveal_strlit("/");
            reveal_strlit("/api/benchmark-metrics");
            reveal_strlit("/api/bottleneck");
            reveal_strlit("/api/compression-analytics");
            reveal_strlit("/api/devices");
            reveal_strlit("/api/export-session");
            reveal_strlit("/api/files/");
            reveal_strlit("/api/health-score");
            reveal_strlit("/api/list-files");
            reveal_strlit("/api/network-path");
            reveal_strlit("/api/pending-transfers");
            reveal_strlit("/api/process-metrics");
            reveal_strlit("/api/protocol-stats");
            reveal_strlit("/api/proxy-download");
            reveal_strlit("/api/sender-transfer-progress");
            reveal_strlit("/api/storage-forecast");
            reveal_strlit("/api/system-metrics");
            reveal_strlit("/api/telemetry");
            reveal_strlit("/api/thermal");
            reveal_strlit("/api/transfer-history");
            reveal_strlit("/api/transfer-progress");
            reveal_strlit("/api/transfer-report");
            reveal_strlit("/api/transfer-status");
            reveal_strlit("/api/transfer-waterfall");
            reveal_strlit("GET");
            reveal_strlit("POST");
            assert("GET"@.len() != "POST"@.len());
            assert("/api/process-metrics"@.len() != "/api/list-files"@.len());
            assert("/api/process-metrics"@.len() != "/api/proxy-download"@.len());
            assert("/api/process-metrics"@.subrange(0, 11)[5] != "/api/files/"@[5]);
            assert("/api/process-metrics"@.len() != "/api/pending-transfers"@.len());
            assert("/api/process-metrics"@.len() != "/api/system-metrics"@.len());
            assert("/api/process-metrics"@[5] != "/api/transfer-status"@[5]);
            assert("/api/process-metrics"@.len() != "/api/transfer-progress"@.len());
            assert("/api/process-metrics"@.len() != "/api/sender-transfer-progress"@.len());
            assert("/api/process-metrics"@.len() != "/"@.len());
            assert("/api/process-metrics"@.len() != "/api/benchmark-metrics"@.len());
            assert("/api/process-metrics"@.len() != "/api/devices"@.len());
            assert("/api/process-metrics"@.len() != "/api/transfer-history"@.len());
            assert("/api/process-metrics"@[5] != "/api/transfer-report"@[5]);
            assert("/api/process-metrics"@.len() != "/api/transfer-waterfall"@.len());
            assert("/api/process-metrics"@.len() != "/api/telemetry"@.len());
            assert("/api/process-metrics"@.len() != "/api/protocol-stats"@.len());
            assert("/api/process-metrics"@.len() != "/api/health-score"@.len());
            assert("/api/process-metrics"@.len() != "/api/thermal"@.len());
            assert("/api/process-metrics"@.len() != "/api/network-path"@.len());
            assert("/api/process-metrics"@.len() != "/api/storage-forecast"@.len());
            assert("/api/process-metrics"@.len() != "/api/compression-analytics"@.len());
            assert("/api/process-metrics"@.len() != "/api/export-session"@.len());
            assert("/api/process-metrics"@.len() != "/api/bottleneck"@.len());
        },
        Route::NodeIdentity => {
            reveal_strlit("/");
            reveal_strlit("/api/benchmark-metrics");
            reveal_strlit("/api/bottleneck");
            reveal_strlit("/api/compression-analytics");
            reveal_strlit("/api/devices");
            reveal_strlit("/api/export-session");
            reveal_strlit("/api/files/");
            reveal_strlit("/api/health-score");
            reveal_strlit("/api/list-files");
            reveal_strlit("/api/network-path");
            reveal_strlit("/api/node-identity");
            reveal_strlit("/api/pending-transfers");
            reveal_strlit("/api/process-metrics");
            reveal_strlit("/api/protocol-stats");
            reveal_strlit("/api/proxy-download");
            reveal_strlit("/api/sender-transfer-progress");
            reveal_strlit("/api/storage-forecast");
            reveal_strlit("/api/system-metrics");
            reveal_strlit("/api/telemetry");
            reveal_strlit("/api/thermal");
            reveal_strlit("/api/transfer-history");
            reveal_strlit("/api/transfer-progress");
            reveal_strlit("/api/transfer-report");
            reveal_strlit("/api/transfer-status");
            reveal_strlit("/api/transfer-waterfall");
            reveal_strlit("GET");
            reveal_strlit("POST");
            assert("GET"@.len() != "POST"@.len());
            assert("/api/node-identity"@.len() != "/api/list-files"@.len());
            assert("/api/node-identity"@.len() != "/api/proxy-download"@.len());
            assert("/api/node-identity"@.subrange(0, 11)[5] != "/api/files/"@[5]);
            assert("/api/node-identity"@.len() != "/api/pending-transfers"@.len());
            assert("/api/node-identity"@.len() != "/api/system-metrics"@.len());
            assert("/api/node-identity"@.len() != "/api/transfer-status"@.len());
            assert("/api/node-identity"@.len() != "/api/transfer-progress"@.len());
            assert("/api/node-identity"@.len() != "/api/sender-transfer-progress"@.len());
            assert("/api/node-identity"@.len() != "/"@.len());
            assert("/api/node-identity"@.len() != "/api/benchmark-metrics"@.len());
            assert("/api/node-identity"@.len() != "/api/devices"@.len());
            assert("/api/node-identity"@.len() != "/api/transfer-history"@.len());
            assert("/api/node-identity"@.len() != "/api/transfer-report"@.len());
            assert("/api/node-identity"@.len() != "/api/transfer-waterfall"@.len());
            assert("/api/node-identity"@.len() != "/api/telemetry"@.len());
            assert("/api/node-identity"@.len() != "/api/protocol-stats"@.len());
            assert("/api/node-identity"@.len() != "/api/health-score"@.len());
            assert("/api/node-identity"@.len() != "/api/thermal"@.len());
            assert("/api/node-identity"@.len() != "/api/network-path"@.len());
            assert("/api/node-identity"@.len() != "/api/storage-forecast"@.len());
            assert("/api/node-identity"@.len() != "/api/compression-analytics"@.len());
            assert("/api/node-identity"@.len() != "/api/export-session"@.len());
            assert("/api/node-identity"@.len() != "/api/bottleneck"@.len());
            assert("/api/node-identity"@.len() != "/api/process-metrics"@.len());
        },
        Route::ReportProgress => {
            reveal_strlit("/api/clipboard/get");
            reveal_strlit("/api/clipboard/set");
            reveal_strlit("/api/download-from-device");
            reveal_strlit("/api/exec");
            reveal_strlit("/api/get-file");
            reveal_strlit("/api/handshake");
            reveal_strlit("/api/initiate-udp");
            reveal_strlit("/api/notify");
            reveal_strlit("/api/receive-file");
            reveal_strlit("/api/report-progress");
            reveal_strlit("/api/send-file");
            reveal_strlit("/api/send-to-device");
            reveal_strlit("/api/share-file-lan");
            reveal_strlit("/api/stream-upload");
            reveal_strlit("/api/upload-and-send");
            reveal_strlit("GET");
            reveal_strlit("POST");
            assert("GET"@.len() != "POST"@.len());
            assert("/api/report-progress"@.len() != "/api/stream-upload"@.len());
            assert("/api/report-progress"@.len() != "/api/send-to-device"@.len());
            assert("/api/report-progress"@.len() != "/api/download-from-device"@.len());
            assert("/api/report-progress"@.len() != "/api/receive-file"@.len());
            assert("/api/report-progress"@.len() != "/api/initiate-udp"@.len());
            assert("/api/report-progress"@.len() != "/api/notify"@.len());
            assert("/api/report-progress"@.len() != "/api/clipboard/get"@.len());
            assert("/api/report-progress"@.len() != "/api/clipboard/set"@.len());
            assert("/api/report-progress"@.len() != "/api/exec"@.len());
            assert("/api/report-progress"@[5] != "/api/upload-and-send"@[5]);
            assert("/api/report-progress"@.len() != "/api/send-file"@.len());
            assert("/api/report-progress"@.len() != "/api/get-file"@.len());
            assert("/api/report-progress"@.len() != "/api/share-file-lan"@.len());
            assert("/api/report-progress"@.len() != "/api/handshake"@.len());
        },
        Route::SenderProgress => {
            reveal_strlit("/");
            reveal_strlit("/api/benchmark-metrics");
            reveal_strlit("/api/bottleneck");
            reveal_strlit("/api/compression-analytics");
            reveal_strlit("/api/devices");
            reveal_strlit("/api/export-session");
            reveal_strlit("/api/files/");
            reveal_strlit("/api/health-score");
            reveal_strlit("/api/list-files");
            reveal_strlit("/api/network-path");
            reveal_strlit("/api/node-identity");
            reveal_strlit("/api/pending-transfers");
            reveal_strlit("/api/process-metrics");
            reveal_strlit("/api/protocol-stats");
            reveal_strlit("/api/proxy-download");
            reveal_strlit("/api/sender-progress");
            reveal_strlit("/api/sender-transfer-progress");
            reveal_strlit("/api/storage-forecast");
            reveal_strlit("/api/system-metrics");
            reveal_strlit("/api/telemetry");
            reveal_strlit("/api/thermal");
            reveal_strlit("/api/transfer-history");
            reveal_strlit("/api/transfer-progress");
            reveal_strlit("/api/transfer-report");
            reveal_strlit("/api/transfer-status");
            reveal_strlit("/api/transfer-waterfall");
            reveal_strlit("GET");
            reveal_strlit("POST");
            assert("GET"@.len() != "POST"@.len());
            assert("/api/sender-progress"@.len() != "/api/list-files"@.len());
            assert("/api/sender-progress"@.len() != "/api/proxy-download"@.len());
            assert("/api/sender-progress"@.subrange(0, 11)[5] != "/api/files/"@[5]);
            assert("/api/sender-progress"@.len() != "/api/pending-transfers"@.len());
            assert("/api/sender-progress"@.len() != "/api/system-metrics"@.len());
            assert("/api/sender-progress"@[5] != "/api/transfer-status"@[5]);
            assert("/api/sender-progress"@.len() != "/api/transfer-progress"@.len());
            assert("/api/sender-progress"@.len() != "/api/sender-transfer-progress"@.len());
            assert("/api/sender-progress"@.len() != "/"@.len());
            assert("/api/sender-progress"@.len() != "/api/benchmark-metrics"@.len());
            assert("/api/sender-progress"@.len() != "/api/devices"@.len());
            assert("/api/sender-progress"@.len() != "/api/transfer-history"@.len());
            assert("/api/sender-progress"@[5] != "/api/transfer-report"@[5]);
            assert("/api/sender-progress"@.len() != "/api/transfer-waterfall"@.len());
            assert("/api/sender-progress"@.len() != "/api/telemetry"@.len());
            assert("/api/sender-progress"@.len() != "/api/protocol-stats"@.len());
            assert("/api/sender-progress"@.len() != "/api/health-score"@.len());
            assert("/api/sender-progress"@.len() != "/api/thermal"@.len());
            assert("/api/sender-progress"@.len() != "/api/network-path"@.len());
            assert("/api/sender-progress"@.len() != "/api/storage-forecast"@.len());
            assert("/api/sender-progress"@.len() != "/api/compression-analytics"@.len());
            assert("/api/sender-progress"@.len() != "/api/export-session"@.len());
            assert("/api/sender-progress"@.len() != "/api/bottleneck"@.len());
            assert("/api/sender-progress"@[5] != "/api/process-metrics"@[5]);
            assert("/api/sender-progress"@.len() != "/api/node-identity"@.len());
        },
        Route::Capabilities => {
            reveal_strlit("/");
            reveal_strlit("/api/benchmark-metrics");
            reveal_strlit("/api/bottleneck");
            reveal_strlit("/api/capabilities");
            reveal_strlit("/api/compression-analytics");
            reveal_strlit("/api/devices");
            reveal_strlit("/api/export-session");
            reveal_strlit("/api/files/");
            reveal_strlit("/api/health-score");
            reveal_strlit("/api/list-files");
            reveal_strlit("/api/network-path");
            reveal_strlit("/api/node-identity");
            reveal_strlit("/api/pending-transfers");
            reveal_strlit("/api/process-metrics");
            reveal_strlit("/api/protocol-stats");
            reveal_strlit("/api/proxy-download");
            reveal_strlit("/api/sender-progress");
            reveal_strlit("/api/sender-transfer-progress");
            reveal_strlit("/api/storage-forecast");
            reveal_strlit("/api/system-metrics");
            reveal_strlit("/api/telemetry");
            reveal_strlit("/api/thermal");
            reveal_strlit("/api/transfer-history");
            reveal_strlit("/api/transfer-progress");
            reveal_strlit("/api/transfer-report");
            reveal_strlit("/api/transfer-status");
            reveal_strlit("/api/transfer-waterfall");
            reveal_strlit("GET");
            reveal_strlit("POST");
            assert("GET"@.len() != "POST"@.len());
            assert("/api/capabilities"@.len() != "/api/list-files"@.len());
            assert("/api/capabilities"@.len() != "/api/proxy-download"@.len());
            assert("/api/capabilities"@.subrange(0, 11)[5] != "/api/files/"@[5]);
            assert("/api/capabilities"@.len() != "/api/pending-transfers"@.len());
            assert("/api/capabilities"@.len() != "/api/system-metrics"@.len());
            assert("/api/capabilities"@.len() != "/api/transfer-status"@.len());
            assert("/api/capabilities"@.len() != "/api/transfer-progress"@.len());
            assert("/api/capabilities"@.len() != "/api/sender-transfer-progress"@.len());
            assert("/api/capabilities"@.len() != "/"@.len());
            assert("/api/capabilities"@.len() != "/api/benchmark-metrics"@.len());
            assert("/api/capabilities"@.len() != "/api/devices"@.len());
            assert("/api/capabilities"@.len() != "/api/transfer-history"@.len());
            assert("/api/capabilities"@.len() != "/api/transfer-report"@.len());
            assert("/api/capabilities"@.len() != "/api/transfer-waterfall"@.len());
            assert("/api/capabilities"@.len() != "/api/telemetry"@.len());
            assert("/api/capabilities"@.len() != "/api/protocol-stats"@.len());
            assert("/api/capabilities"@[5] != "/api/health-score"@[5]);
            assert("/api/capabilities"@.len() != "/api/thermal"@.len());
            assert("/api/capabilities"@[5] != "/api/network-path"@[5]);
            assert("/api/capabilities"@.len() != "/api/storage-forecast"@.len());
            assert("/api/capabilities"@.len() != "/api/compression-analytics"@.len());
            assert("/api/capabilities"@.len() != "/api/export-session"@.len());
            assert("/api/capabilities"@.len() != "/api/bottleneck"@.len());
            assert("/api/capabilities"@.len() != "/api/process-metrics"@.len());
            assert("/api/capabilities"@.len() != "/api/node-identity"@.len());
            assert("/api/capabilities"@.len() != "/api/sender-progress"@.len());
        },
        Route::ControlStream => {
            reveal_strlit("/");
            reveal_strlit("/api/benchmark-metrics");
            reveal_strlit("/api/bottleneck");
            reveal_strlit("/api/capabilities");
            reveal_strlit("/api/compression-analytics");
            reveal_strlit("/api/control-stream");
            reveal_strlit("/api/devices");
            reveal_strlit("/api/export-session");
            reveal_strlit("/api/files/");
            reveal_strlit("/api/health-score");
            reveal_strlit("/api/list-files");
            reveal_strlit("/api/network-path");
            reveal_strlit("/api/node-identity");
            reveal_strlit("/api/pending-transfers");
            reveal_strlit("/api/process-metrics");
            reveal_strlit("/api/protocol-stats");
            reveal_strlit("/api/proxy-download");
            reveal_strlit("/api/sender-progress");
            reveal_strlit("/api/sender-transfer-progress");
            reveal_strlit("/api/storage-forecast");
            reveal_strlit("/api/system-metrics");
            reveal_strlit("/api/telemetry");
            reveal_strlit("/api/thermal");
            reveal_strlit("/api/transfer-history");
            reveal_strlit("/api/transfer-progress");
            reveal_strlit("/api/transfer-report");
            reveal_strlit("/api/transfer-status");
            reveal_strlit("/api/transfer-waterfall");
            reveal_strlit("GET");
            reveal_strlit("POST");
            assert("GET"@.len() != "POST"@.len());
            assert("/api/control-stream"@.len() != "/api/list-files"@.len());
            assert("/api/control-stream"@[5] != "/api/proxy-download"@[5]);
            assert("/api/control-stream"@.subrange(0, 11)[5] != "/api/files/"@[5]);
            assert("/api/control-stream"@.len() != "/api/pending-transfers"@.len());
            assert("/api/control-stream"@[5] != "/api/system-metrics"@[5]);
            assert("/api/control-stream"@.len() != "/api/transfer-status"@.len());
            assert("/api/control-stream"@.len() != "/api/transfer-progress"@.len());
            assert("/api/control-stream"@.len() != "/api/sender-transfer-progress"@.len());
            assert("/api/control-stream"@.len() != "/"@.len());
            assert("/api/control-stream"@.len() != "/api/benchmark-metrics"@.len());
            assert("/api/control-stream"@.len() != "/api/devices"@.len());
            assert("/api/control-stream"@.len() != "/api/transfer-history"@.len());
            assert("/api/control-stream"@.len() != "/api/transfer-report"@.len());
            assert("/api/control-stream"@.len() != "/api/transfer-waterfall"@.len());
            assert("/api/control-stream"@.len() != "/api/telemetry"@.len());
            assert("/api/control-stream"@[5] != "/api/protocol-stats"@[5]);
            assert("/api/control-stream"@.len() != "/api/health-score"@.len());
            assert("/api/control-stream"@.len() != "/api/thermal"@.len());
            assert("/api/control-stream"@.len() != "/api/network-path"@.len());
            assert("/api/control-stream"@.len() != "/api/storage-forecast"@.len());
            assert("/api/control-stream"@.len() != "/api/compression-analytics"@.len());
            assert("/api/control-stream"@[5] != "/api/export-session"@[5]);
            assert("/api/control-stream"@.len() != "/api/bottleneck"@.len());
            assert("/api/control-stream"@.len() != "/api/process-metrics"@.len());
            assert("/api/control-stream"@.len() != "/api/node-identity"@.len());
            assert("/api/control-stream"@.len() != "/api/sender-progress"@.len());
            assert("/api/control-stream"@.len() != "/api/capabilities"@.len());
        },
        Route::BufferAnalysis => {
            reveal_strlit("/");
            reveal_strlit("/api/benchmark-metrics");
            reveal_strlit("/api/bottleneck");
            reveal_strlit("/api/buffer-analysis");
            reveal_strlit("/api/capabilities");
            reveal_strlit("/api/compression-analytics");
            reveal_strlit("/api/control-stream");
            reveal_strlit("/api/devices");
            reveal_strlit("/api/export-session");
            reveal_strlit("/api/files/");
            reveal_strlit("/api/health-score");
            reveal_strlit("/api/list-files");
            reveal_strlit("/api/network-path");
            reveal_strlit("/api/node-identity");
            reveal_strlit("/api/pending-transfers");
            reveal_strlit("/api/process-metrics");
            reveal_strlit("/api/protocol-stats");
            reveal_strlit("/api/proxy-download");
            reveal_strlit("/api/sender-progress");
            reveal_strlit("/api/sender-transfer-progress");
            reveal_strlit("/api/storage-forecast");
            reveal_strlit("/api/system-metrics");
            reveal_strlit("/api/telemetry");
            reveal_strlit("/api/thermal");
            reveal_strlit("/api/transfer-history");
            reveal_strlit("/api/transfer-progress");
            reveal_strlit("/api/transfer-report");
            reveal_strlit("/api/transfer-status");
            reveal_strlit("/api/transfer-waterfall");
            reveal_strlit("GET");
            reveal_strlit("POST");
            assert("GET"@.len() != "POST"@.len());
            assert("/api/buffer-analysis"@.len() != "/api/list-files"@.len());
            assert("/api/buffer-analysis"@.len() != "/api/proxy-download"@.len());
            assert("/api/buffer-analysis"@.subrange(0, 11)[5] != "/api/files/"@[5]);
            assert("/api/buffer-analysis"@.len() != "/api/pending-transfers"@.len());
            assert("/api/buffer-analysis"@.len() != "/api/system-metrics"@.len());
            assert("/api/buffer-analysis"@[5] != "/api/transfer-status"@[5]);
            assert("/api/buffer-analysis"@.len() != "/api/transfer-progress"@.len());
            assert("/api/buffer-analysis"@.len() != "/api/sender-transfer-progress"@.len());
            assert("/api/buffer-analysis"@.len() != "/"@.len());
            assert("/api/buffer-analysis"@.len() != "/api/benchmark-metrics"@.len());
            assert("/api/buffer-analysis"@.len() != "/api/devices"@.len());
            assert("/api/buffer-analysis"@.len() != "/api/transfer-history"@.len());
            assert("/api/buffer-analysis"@[5] != "/api/transfer-report"@[5]);
            assert("/api/buffer-analysis"@.len() != "/api/transfer-waterfall"@.len());
            assert("/api/buffer-analysis"@.len() != "/api/telemetry"@.len());
            assert("/api/buffer-analysis"@.len() != "/api/protocol-stats"@.len());
            assert("/api/buffer-analysis"@.len() != "/api/health-score"@.len());
            assert("/api/buffer-analysis"@.len() != "/api/thermal"@.len());
            assert("/api/buffer-analysis"@.len() != "/api/network-path"@.len());
            assert("/api/buffer-analysis"@.len() != "/api/storage-forecast"@.len());
            assert("/api/buffer-analysis"@.len() != "/api/compression-analytics"@.len());
            assert("/api/buffer-analysis"@.len() != "/api/export-session"@.len());
            assert("/api/buffer-analysis"@.len() != "/api/bottleneck"@.len());
            assert("/api/buffer-analysis"@[5] != "/api/process-metrics"@[5]);
            assert("/api/buffer-analysis"@.len() != "/api/node-identity"@.len());
            assert("/api/buffer-analysis"@[5] != "/api/sender-progress"@[5]);
            assert("/api/buffer-analysis"@.len() != "/api/capabilities"@.len());
            assert("/api/buffer-analysis"@.len() != "/api/control-stream"@.len());
        },
        _ => {},
    }
}

pub open spec fn route_of(method: Seq<char>, path: Seq<char>, content_length: usize) -> Route {
    if method == "GET"@ && path == "/api/list-files"@ {
        Route::ListFiles
    } else if method == "POST"@ && path == "/api/stream-upload"@ {
        Route::StreamUpload
    } else if method == "GET"@ && path == "/api/proxy-download"@ {
        Route::ProxyDownload
    } else if method == "GET"@ && starts_with(path, "/api/files/"@) {
        Route::FileDownload
    } else if method == "GET"@ && path == "/api/pending-transfers"@ {
        Route::PendingTransfers
    } else if method == "GET"@ && path == "/api/system-metrics"@ {
        Route::SystemMetrics
    } else if method == "GET"@ && path == "/api/transfer-status"@ {
        Route::TransferStatus
    } else if method == "GET"@ && path == "/api/transfer-progress"@ {
        Route::TransferProgress
    } else if method == "GET"@ && path == "/api/sender-transfer-progress"@ {
        Route::SenderTransferProgress
    } else if method == "POST"@ && path == "/api/send-to-device"@ && 0 < content_length < small_body_limit() {
        Route::SendToDevice
    } else if method == "POST"@ && path == "/api/download-from-device"@ && 0 < content_length < small_body_limit() {
        Route::DownloadFromDevice
    } else if method == "POST"@ && path == "/api/receive-file"@ {
        Route::ReceiveFile
    } else if method == "GET"@ && path == "/"@ {
        Route::DashboardPage
    } else if method == "GET"@ && path == "/api/benchmark-metrics"@ {
        Route::BenchmarkMetrics
    } else if method == "GET"@ && path == "/api/devices"@ {
        Route::Devices
    } else if method == "POST"@ && path == "/api/initiate-udp"@ {
        Route::InitiateUdp
    } else if method == "POST"@ && path == "/api/notify"@ {
        Route::Notify
    } else if method == "POST"@ && path == "/api/clipboard/get"@ {
        Route::ClipboardGet
    } else if method == "POST"@ && path == "/api/clipboard/set"@ {
        Route::ClipboardSet
    } else if method == "POST"@ && path == "/api/exec"@ {
        Route::Exec
    } else if method == "POST"@ && path == "/api/upload-and-send"@ {
        Route::UploadAndSend
    } else if method == "POST"@ && path == "/api/send-file"@ {
        Route::SendFile
    } else if method == "POST"@ && path == "/api/get-file"@ {
        Route::GetFile
    } else if method == "POST"@ && path == "/api/share-file-lan"@ {
        Route::ShareFileLan
    } else if method == "GET"@ && path == "/api/transfer-history"@ {
        Route::TransferHistory
    } else if method == "GET"@ && path == "/api/transfer-report"@ {
        Route::TransferReport
    } else if method == "GET"@ && path == "/api/transfer-waterfall"@ {
        Route::TransferWaterfall
    } else if method == "POST"@ && path == "/api/handshake"@ {
        Route::Handshake
    } else if method == "GET"@ && path == "/api/telemetry"@ {
        Route::Telemetry
    } else if method == "GET"@ && path == "/api/protocol-stats"@ {
        Route::ProtocolStats
    } else if method == "GET"@ && path == "/api/health-score"@ {
        Route::HealthScore
    } else if method == "GET"@ && path == "/api/thermal"@ {
        Route::Thermal
    } else if method == "GET"@ && path == "/api/network-path"@ {
        Route::NetworkPath
    } else if method == "GET"@ && path == "/api/storage-forecast"@ {
        Route::StorageForecast
    } else if method == "GET"@ && path == "/api/compression-analytics"@ {
        Route::CompressionAnalytics
    } else if method == "GET"@ && path == "/api/export-session"@ {
        Route::ExportSession
    } else if method == "GET"@ && path == "/api/bottleneck"@ {
        Route::BottleneckReport
    } else if method == "GET"@ && path == "/api/process-metrics"@ {
        Route::ProcessMetrics
    } else if method == "GET"@ && path == "/api/node-identity"@ {
        Route::NodeIdentity
    } else if method == "POST"@ && path == "/api/report-progress"@ {
        Route::ReportProgress
    } else if method == "GET"@ && path == "/api/sender-progress"@ {
        Route::SenderProgress
    } else if method == "GET"@ && path == "/api/capabilities"@ {
        Route::Capabilities
    } else if method == "GET"@ && path == "/api/control-stream"@ {
        Route::ControlStream
    } else if method == "GET"@ && path == "/api/buffer-analysis"@ {
        Route::BufferAnalysis
    } else {
        Route::NotFound
    }
}

/// The endpoint a request is served by; see [`route_of`].
pub fn route(method: &str, path: &str, content_length: usize) -> (r: Route)
    ensures
        r == route_of(method@, path@, content_length),
        r != Route::NotFound && r != Route::FileDownload ==> route_endpoint(r) == Some((method@, path@)),
{
    proof {
        law_route_reached_only_from_its_endpoint(method@, path@, content_length);
    }
    let m = chars_of(method);
    let p = chars_of(path);
    if chars_eq_str(&m, "GET") && chars_eq_str(&p, "/api/list-files") {
        return Route::ListFiles;
    }
    if chars_eq_str(&m, "POST") && chars_eq_str(&p, "/api/stream-upload") {
        return Route::StreamUpload;
    }
    if chars_eq_str(&m, "GET") && chars_eq_str(&p, "/api/proxy-download") {
        return Route::ProxyDownload;
    }
    if chars_eq_str(&m, "GET") && starts_with_str(&p, "/api/files/") {
        return Route::FileDownload;
    }
    if chars_eq_str(&m, "GET") && chars_eq_str(&p, "/api/pending-transfers") {
        return Route::PendingTransfers;
    }
    if chars_eq_str(&m, "GET") && chars_eq_str(&p, "/api/system-metrics") {
        return Route::SystemMetrics;
    }
    if chars_eq_str(&m, "GET") && chars_eq_str(&p, "/api/transfer-status") {
        return Route::TransferStatus;
    }
    if chars_eq_str(&m, "GET") && chars_eq_str(&p, "/api/transfer-progress") {
        return Route::TransferProgress;
    }
    if chars_eq_str(&m, "GET") && chars_eq_str(&p, "/api/sender-transfer-progress") {
        return Route::SenderTransferProgress;
    }
    if chars_eq_str(&m, "POST") && chars_eq_str(&p, "/api/send-to-device") && 0 < content_length && content_length < 65536 {
        return Route::SendToDevice;
    }
    if chars_eq_str(&m, "POST") && chars_eq_str(&p, "/api/download-from-device") && 0 < content_length && content_length < 65536 {
        return Route::DownloadFromDevice;
    }
    if chars_eq_str(&m, "POST") && chars_eq_str(&p, "/api/receive-file") {
        return Route::ReceiveFile;
    }
    if chars_eq_str(&m, "GET") && chars_eq_str(&p, "/") {
        return Route::DashboardPage;
    }
    if chars_eq_str(&m, "GET") && chars_eq_str(&p, "/api/benchmark-metrics") {
        return Route::BenchmarkMetrics;
    }
    if chars_eq_str(&m, "GET") && chars_eq_str(&p, "/api/devices") {
        return Route::Devices;
    }
    if chars_eq_str(&m, "POST") && chars_eq_str(&p, "/api/initiate-udp") {
        return Route::InitiateUdp;
    }
    if chars_eq_str(&m, "POST") && chars_eq_str(&p, "/api/notify") {
        return Route::Notify;
    }
    if chars_eq_str(&m, "POST") && chars_eq_str(&p, "/api/clipboard/get") {
        return Route::ClipboardGet;
    }
    if chars_eq_str(&m, "POST") && chars_eq_str(&p, "/api/clipboard/set") {
        return Route::ClipboardSet;
    }
    if chars_eq_str(&m, "POST") && chars_eq_str(&p, "/api/exec") {
        return Route::Exec;
    }
    if chars_eq_str(&m, "POST") && chars_eq_str(&p, "/api/upload-and-send") {
        return Route::UploadAndSend;
    }
    if chars_eq_str(&m, "POST") && chars_eq_str(&p, "/api/send-file") {
        return Route::SendFile;
    }
    if chars_eq_str(&m, "POST") && chars_eq_str(&p, "/api/get-file") {
        return Route::GetFile;
    }
    if chars_eq_str(&m, "POST") && chars_eq_str(&p, "/api/share-file-lan") {
        return Route::ShareFileLan;
    }
    if chars_eq_str(&m, "GET") && chars_eq_str(&p, "/api/transfer-history") {
        return Route::TransferHistory;
    }
    if chars_eq_str(&m, "GET") && chars_eq_str(&p, "/api/transfer-report") {
        return Route::TransferReport;
    }
    if chars_eq_str(&m, "GET") && chars_eq_str(&p, "/api/transfer-waterfall") {
        return Route::TransferWaterfall;
    }
    if chars_eq_str(&m, "POST") && chars_eq_str(&p, "/api/handshake") {
        return Route::Handshake;
    }
    if chars_eq_str(&m, "GET") && chars_eq_str(&p, "/api/telemetry") {
        return Route::Telemetry;
    }
    if chars_eq_str(&m, "GET") && chars_eq_str(&p, "/api/protocol-stats") {
        return Route::ProtocolStats;
    }
    if chars_eq_str(&m, "GET") && chars_eq_str(&p, "/api/health-score") {
        return Route::HealthScore;
    }
    if chars_eq_str(&m, "GET") && chars_eq_str(&p, "/api/thermal") {
        return Route::Thermal;
    }
    if chars_eq_str(&m, "GET") && chars_eq_str(&p, "/api/network-path") {
        return Route::NetworkPath;
    }
    if chars_eq_str(&m, "GET") && chars_eq_str(&p, "/api/storage-forecast") {
        return Route::StorageForecast;
    }
    if chars_eq_str(&m, "GET") && chars_eq_str(&p, "/api/compression-analytics") {
        return Route::CompressionAnalytics;
    }
    if chars_eq_str(&m, "GET") && chars_eq_str(&p, "/api/export-session") {
        return Route::ExportSession;
    }
    if chars_eq_str(&m, "GET") && chars_eq_str(&p, "/api/bottleneck") {
        return Route::BottleneckReport;
    }
    if chars_eq_str(&m, "GET") && chars_eq_str(&p, "/api/process-metrics") {
        return Route::ProcessMetrics;
    }
    if chars_eq_str(&m, "GET") && chars_eq_str(&p, "/api/node-identity") {
        return Route::NodeIdentity;
    }
    if chars_eq_str(&m, "POST") && chars_eq_str(&p, "/api/report-progress") {
        return Route::ReportProgress;
    }
    if chars_eq_str(&m, "GET") && chars_eq_str(&p, "/api/sender-progress") {
        return Route::SenderProgress;
    }
    if chars_eq_str(&m, "GET") && chars_eq_str(&p, "/api/capabilities") {
        return Route::Capabilities;
    }
    if chars_eq_str(&m, "GET") && chars_eq_str(&p, "/api/control-stream") {
        return Route::ControlStream;
    }
    if chars_eq_str(&m, "GET") && chars_eq_str(&p, "/api/buffer-analysis") {
        return Route::BufferAnalysis;
    }
    Route::NotFound
}

/// The file named by a `/api/files/<name>` path.
pub open spec fn file_download_name(path: Seq<char>) -> Option<Seq<char>> {
    if starts_with(path, "/api/files/"@) {
        Some(path.subrange(11, path.len() as int))
    } else {
        None
    }
}

/// The file named by a `/api/files/<name>` path.
pub fn requested_file_name(path: &str) -> (r: Option<String>)
    ensures
        match r {
            Some(n) => file_download_name(path@) == Some(n@),
            None => file_download_name(path@) is None,
        },
{
    let p = chars_of(path);
    if starts_with_str(&p, "/api/files/") {
        proof {
            reveal_strlit("/api/files/");
        }
        Some(string_of(&slice_chars(&p, 11, p.len())))
    } else {
        None
    }
}

} // verus!

verus! {

// ---------------------------------------------------------------------------
// Messages
// ---------------------------------------------------------------------------

/// The UTF-8 length of a text.
pub open spec fn byte_len(s: &str) -> nat {
    s.len() as nat
}

/// The status line text of a JSON reply (unknown codes read as `200 OK`).
pub open spec fn status_text(status: u16) -> Seq<char> {
    if status == 200 {
        "200 OK"@
    } else if status == 400 {
        "400 BAD REQUEST"@
    } else if status == 500 {
        "500 INTERNAL SERVER ERROR"@
    } else {
        "200 OK"@
    }
}

fn status_text_exec(status: u16) -> (s: &'static str)
    ensures
        s@ == status_text(status),
{
    if status == 200 {
        "200 OK"
    } else if status == 400 {
        "400 BAD REQUEST"
    } else if status == 500 {
        "500 INTERNAL SERVER ERROR"
    } else {
        "200 OK"
    }
}

/// A complete JSON reply with the given status.
pub fn json_response(status: u16, json: &str) -> (r: String)
    ensures
        r@ == "HTTP/1.1 "@ + status_text(status) + "\r\nContent-Type: application/json\r\nContent-Length: "@
            + decimal(byte_len(json)) + "\r\nConnection: close\r\nAccess-Control-Allow-Origin: *\r\n\r\n"@
            + json@,
{
    let mut out: Vec<char> = Vec::new();
    push_str(&mut out, "HTTP/1.1 ");
    push_str(&mut out, status_text_exec(status));
    push_str(&mut out, "\r\nContent-Type: application/json\r\nContent-Length: ");
    push_decimal(&mut out, json.len() as u64);
    push_str(&mut out, "\r\nConnection: close\r\nAccess-Control-Allow-Origin: *\r\n\r\n");
    push_str(&mut out, json);
    string_of(&out)
}

/// A complete HTML page reply.
pub fn html_response(html: &str) -> (r: String)
    ensures
        r@ == "HTTP/1.1 200 OK\r\nContent-Type: text/html\r\nContent-Length: "@ + decimal(byte_len(html))
            + "\r\nConnection: close\r\n\r\n"@ + html@,
{
    let mut out: Vec<char> = Vec::new();
    push_str(&mut out, "HTTP/1.1 200 OK\r\nContent-Type: text/html\r\nContent-Length: ");
    push_decimal(&mut out, html.len() as u64);
    push_str(&mut out, "\r\nConnection: close\r\n\r\n");
    push_str(&mut out, html);
    string_of(&out)
}

/// The reply to a request no route serves: `404 Not Found` as plain text.
pub fn not_found_response() -> (r: String)
    ensures
        r@ == "HTTP/1.1 404 NOT FOUND\r\nContent-Type: text/plain\r\nContent-Length: "@ + decimal(
            byte_len("404 Not Found"),
        ) + "\r\nConnection: close\r\n\r\n"@ + "404 Not Found"@,
{
    let body = "404 Not Found";
    let mut out: Vec<char> = Vec::new();
    push_str(&mut out, "HTTP/1.1 404 NOT FOUND\r\nContent-Type: text/plain\r\nContent-Length: ");
    push_decimal(&mut out, body.len() as u64);
    push_str(&mut out, "\r\nConnection: close\r\n\r\n");
    push_str(&mut out, body);
    string_of(&out)
}

/// The head of a file pushed to a device's `/api/receive-file`: `size`
/// bytes under the name `name`.
pub fn push_file_head(host: &str, port: u16, size: u64, name: &str) -> (r: String)
    ensures
        r@ == "POST /api/receive-file HTTP/1.1\r\nHost: "@ + host@ + ":"@ + decimal(port as nat)
            + "\r\nContent-Length: "@ + decimal(size as nat) + "\r\nX-Filename: "@ + name@
            + "\r\nX-Total-Size: "@ + decimal(size as nat) + "\r\nConnection: close\r\n\r\n"@,
{
    let mut out: Vec<char> = Vec::new();
    push_str(&mut out, "POST /api/receive-file HTTP/1.1\r\nHost: ");
    push_str(&mut out, host);
    push_str(&mut out, ":");
    push_decimal(&mut out, port as u64);
    push_str(&mut out, "\r\nContent-Length: ");
    push_decimal(&mut out, size);
    push_str(&mut out, "\r\nX-Filename: ");
    push_str(&mut out, name);
    push_str(&mut out, "\r\nX-Total-Size: ");
    push_decimal(&mut out, size);
    push_str(&mut out, "\r\nConnection: close\r\n\r\n");
    string_of(&out)
}

/// A JSON `POST` of `body` to `path` on `host`.
pub fn http_post_request(path: &str, host: &str, body: &str) -> (r: String)
    ensures
        r@ == "POST "@ + path@ + " HTTP/1.1\r\nHost: "@ + host@
            + "\r\nContent-Type: application/json\r\nContent-Length: "@ + decimal(byte_len(body))
            + "\r\nConnection: close\r\n\r\n"@ + body@,
{
    let mut out: Vec<char> = Vec::new();
    push_str(&mut out, "POST ");
    push_str(&mut out, path);
    push_str(&mut out, " HTTP/1.1\r\nHost: ");
    push_str(&mut out, host);
    push_str(&mut out, "\r\nContent-Type: application/json\r\nContent-Length: ");
    push_decimal(&mut out, body.len() as u64);
    push_str(&mut out, "\r\nConnection: close\r\n\r\n");
    push_str(&mut out, body);
    string_of(&out)
}

/// A `GET` of `path` from `host`.
pub fn http_get_request(path: &str, host: &str) -> (r: String)
    ensures
        r@ == "GET "@ + path@ + " HTTP/1.1\r\nHost: "@ + host@ + "\r\nConnection: close\r\n\r\n"@,
{
    let mut out: Vec<char> = Vec::new();
    push_str(&mut out, "GET ");
    push_str(&mut out, path);
    push_str(&mut out, " HTTP/1.1\r\nHost: ");
    push_str(&mut out, host);
    push_str(&mut out, "\r\nConnection: close\r\n\r\n");
    string_of(&out)
}

/// A `GET` of `path` from `host:port`.
pub fn http_get_request_with_port(path: &str, host: &str, port: u16) -> (r: String)
    ensures
        r@ == "GET "@ + path@ + " HTTP/1.1\r\nHost: "@ + host@ + ":"@ + decimal(port as nat)
            + "\r\nConnection: close\r\n\r\n"@,
{
    let mut out: Vec<char> = Vec::new();
    push_str(&mut out, "GET ");
    push_str(&mut out, path);
    push_str(&mut out, " HTTP/1.1\r\nHost: ");
    push_str(&mut out, host);
    push_str(&mut out, ":");
    push_decimal(&mut out, port as u64);
    push_str(&mut out, "\r\nConnection: close\r\n\r\n");
    string_of(&out)
}

/// The head of a file sent as a download.
pub fn attachment_head(filename: &str, size: u64) -> (r: String)
    ensures
        r@ == "HTTP/1.1 200 OK\r\nContent-Length: "@ + decimal(size as nat)
            + "\r\nContent-Disposition: attachment; filename=\""@ + filename@
            + "\"\r\nConnection: close\r\n\r\n"@,
{
    let mut out: Vec<char> = Vec::new();
    push_str(&mut out, "HTTP/1.1 200 OK\r\nContent-Length: ");
    push_decimal(&mut out, size);
    push_str(&mut out, "\r\nContent-Disposition: attachment; filename=\"");
    push_str(&mut out, filename);
    push_str(&mut out, "\"\r\nConnection: close\r\n\r\n");
    string_of(&out)
}

/// JSON request bodies are read up to 10 MiB.
pub open spec fn json_body_cap() -> usize {
    10485760usize
}

/// How many body bytes to read for a JSON endpoint: none unless it is a
/// `POST` with a body, and at most 10 MiB.
pub fn json_body_len(method: &str, content_length: usize) -> (n: usize)
    ensures
        n == if method@ == "POST"@ && content_length > 0 {
            if content_length <= json_body_cap() { content_length } else { json_body_cap() }
        } else {
            0
        },
{
    let m = chars_of(method);
    if chars_eq_str(&m, "POST") && content_length > 0 {
        if content_length <= 10 * 1024 * 1024 { content_length } else { 10 * 1024 * 1024 }
    } else {
        0
    }
}

/// Whether a response head reports success (`HTTP/1.1 200` or `HTTP/1.0 200`).
pub open spec fn response_ok(head: Seq<char>) -> bool {
    starts_with(head, "HTTP/1.1 200"@) || starts_with(head, "HTTP/1.0 200"@)
}

/// The announced body size of a response head (`Content-Length` read as a
/// `u64`, 0 when missing or invalid).
pub open spec fn response_length_of(ls: Seq<Seq<char>>) -> u64 {
    match first_header(ls, "content-length:"@) {
        Some(l) => {
            let parts = split_on(l, ':');
            if parts.len() > 1 {
                match parse_unsigned(crate::text::trim(parts[1]), 10, u64::MAX as int) {
                    Some(n) => n as u64,
                    None => 0,
                }
            } else {
                0
            }
        },
        None => 0,
    }
}

/// For a download: `None` when the server did not answer 200, else the
/// announced size (0 when unknown).
pub fn download_head(head: &str) -> (r: Option<u64>)
    ensures
        !response_ok(head@) ==> r is None,
        response_ok(head@) ==> r == Some(response_length_of(crate::text::lines(head@))),
{
    let v = chars_of(head);
    if !(starts_with_str(&v, "HTTP/1.1 200") || starts_with_str(&v, "HTTP/1.0 200")) {
        return None;
    }
    let ls = crate::text::split_lines(&v);
    let mut total: u64 = 0;
    match first_header_exec(&ls, "content-length:") {
        Some(i) => {
            let parts = split_char(&ls[i], ':');
            if parts.len() > 1 {
                proof { crate::procfs::lemma_views_index_pub(parts@, 1); }
                let val = crate::text::trim_chars(&parts[1]);
                assert(val@.subrange(0, val.len() as int) == val@);
                match parse_unsigned_range(&val, 0, val.len(), 10, u64::MAX) {
                    Some(n) => {
                        total = n;
                    },
                    None => {},
                }
            }
        },
        None => {},
    }
    Some(total)
}

} // verus!

verus! {

broadcast use vstd::seq_lib::group_to_multiset_ensures;

// ---------------------------------------------------------------------------
// Directory listings
// ---------------------------------------------------------------------------

/// An entry of a directory listing.
pub struct DirEntry {
    pub name: String,
    pub path: String,
    pub is_dir: bool,
    pub is_file: bool,
    pub size: u64,
    /// Seconds since the Unix epoch, when known.
    pub modified: Option<u64>,
}

impl DirEntry {
    /// A copy of the entry, field for field.
    pub fn clone_entry(&self) -> (r: DirEntry)
        ensures
            r == *self,
    {
        DirEntry {
            name: self.name.clone(),
            path: self.path.clone(),
            is_dir: self.is_dir,
            is_file: self.is_file,
            size: self.size,
            modified: self.modified,
        }
    }
}

/// A file entry of a remote directory listing.
pub struct RemoteEntry {
    pub name: String,
    pub path: String,
    pub is_dir: bool,
    pub is_file: bool,
    pub size: u64,
}

/// Lexicographic order of texts by character (the order of `str::cmp`,
/// since UTF-8 keeps the order of code points).
pub open spec fn text_le(a: Seq<char>, b: Seq<char>) -> bool
    decreases a.len(),
{
    if a.len() == 0 {
        true
    } else if b.len() == 0 {
        false
    } else if (a[0] as u32) < (b[0] as u32) {
        true
    } else if a[0] == b[0] {
        text_le(a.drop_first(), b.drop_first())
    } else {
        false
    }
}

/// Any two texts are ordered one way or the other.
pub proof fn lemma_text_le_total(a: Seq<char>, b: Seq<char>)
    ensures
        text_le(a, b) || text_le(b, a),
    decreases a.len(),
{
    if a.len() > 0 && b.len() > 0 {
        if a[0] == b[0] {
            lemma_text_le_total(a.drop_first(), b.drop_first());
        } else {
            vstd::utf8::char_u32_cast(a[0], a[0] as u32);
            vstd::utf8::char_u32_cast(b[0], b[0] as u32);
        }
    }
}

/// The text order is transitive.
pub proof fn lemma_text_le_trans(a: Seq<char>, b: Seq<char>, c: Seq<char>)
    requires
        text_le(a, b),
        text_le(b, c),
    ensures
        text_le(a, c),
    decreases a.len(),
{
    if a.len() > 0 && b.len() > 0 && c.len() > 0 && a[0] == b[0] && b[0] == c[0] {
        lemma_text_le_trans(a.drop_first(), b.drop_first(), c.drop_first());
    }
}

/// Listing order: directories first, then by name.
pub open spec fn entry_le(a: DirEntry, b: DirEntry) -> bool {
    (a.is_dir && !b.is_dir) || (a.is_dir == b.is_dir && text_le(a.name@, b.name@))
}

/// Every entry comes no later than the ones after it.
pub open spec fn listing_sorted(s: Seq<DirEntry>) -> bool {
    forall|i: int, j: int| 0 <= i < j < s.len() ==> entry_le(#[trigger] s[i], #[trigger] s[j])
}

fn text_le_exec(a: &String, b: &String) -> (r: bool)
    ensures
        r == text_le(a@, b@),
{
    let av = crate::text::chars_of(a.as_str());
    let bv = crate::text::chars_of(b.as_str());
    let mut k: usize = 0;
    assert(av@.subrange(0, av.len() as int) == av@);
    assert(bv@.subrange(0, bv.len() as int) == bv@);
    while k < av.len() && k < bv.len() && av[k] == bv[k]
        invariant
            0 <= k <= av.len(),
            k <= bv.len(),
            text_le(av@.subrange(k as int, av.len() as int), bv@.subrange(k as int, bv.len() as int))
                == text_le(av@, bv@),
        decreases av.len() - k,
    {
        assert(av@.subrange(k as int, av.len() as int).drop_first() == av@.subrange(k + 1, av.len() as int));
        assert(bv@.subrange(k as int, bv.len() as int).drop_first() == bv@.subrange(k + 1, bv.len() as int));
        k = k + 1;
    }
    assert(av@.subrange(0, av.len() as int) == av@);
    assert(bv@.subrange(0, bv.len() as int) == bv@);
    if k == av.len() {
        true
    } else if k == bv.len() {
        false
    } else {
        (av[k] as u32) < (bv[k] as u32)
    }
}

fn entry_le_exec(a: &DirEntry, b: &DirEntry) -> (r: bool)
    ensures
        r == entry_le(*a, *b),
{
    (a.is_dir && !b.is_dir) || (a.is_dir == b.is_dir && text_le_exec(&a.name, &b.name))
}

/// The first index from `k` on whose entry does not come before or with `x`.
pub open spec fn first_after(s: Seq<DirEntry>, x: DirEntry, k: int) -> int
    decreases s.len() - k,
{
    if k < 0 || k >= s.len() {
        s.len() as int
    } else if !entry_le(s[k], x) {
        k
    } else {
        first_after(s, x, k + 1)
    }
}

/// The stable sort by listing order: each entry in turn goes after every
/// entry already placed that comes before or with it.
pub open spec fn stable_listing(s: Seq<DirEntry>) -> Seq<DirEntry>
    decreases s.len(),
{
    if s.len() == 0 {
        Seq::empty()
    } else {
        let t = stable_listing(s.drop_last());
        t.insert(first_after(t, s.last(), 0), s.last())
    }
}

/// Order a directory listing: directories first, then by name; entries that
/// compare equal keep their order.
pub fn sort_listing(entries: Vec<DirEntry>) -> (r: Vec<DirEntry>)
    ensures
        r@ == stable_listing(entries@),
        listing_sorted(r@),
        r@.to_multiset() == entries@.to_multiset(),
{
    let mut out: Vec<DirEntry> = Vec::new();
    let mut i: usize = 0;
    let n = entries.len();
    while i < n
        invariant
            n == entries.len(),
            0 <= i <= n,
            listing_sorted(out@),
            out@.to_multiset() == entries@.subrange(0, i as int).to_multiset(),
            out@ == stable_listing(entries@.subrange(0, i as int)),
        decreases n - i,
    {
        let x = entries[i].clone_entry();
        assert(entries@.subrange(0, i + 1) == entries@.subrange(0, i as int).push(entries@[i as int]));
        assert(entries@.subrange(0, i + 1).drop_last() == entries@.subrange(0, i as int));
        let mut pos: usize = 0;
        while pos < out.len() && entry_le_exec(&out[pos], &x)
            invariant
                0 <= pos <= out.len(),
                forall|k: int| 0 <= k < pos ==> entry_le(#[trigger] out@[k], x),
                first_after(out@, x, pos as int) == first_after(out@, x, 0),
            decreases out.len() - pos,
        {
            pos = pos + 1;
        }
        assert(first_after(out@, x, pos as int) == pos);
        let ghost before = out@;
        proof {
            assert forall|j: int| pos <= j < before.len() implies entry_le(x, #[trigger] before[j]) by {
                let p = before[pos as int];
                assert(!entry_le(p, x));
                lemma_text_le_total(p.name@, x.name@);
                if j > pos {
                    assert(entry_le(p, before[j]));
                    if x.is_dir == p.is_dir && p.is_dir == before[j].is_dir {
                        lemma_text_le_trans(x.name@, p.name@, before[j].name@);
                    }
                }
            }
        }
        out.insert(pos, x);
        assert(out@ == before.insert(pos as int, x));
        assert forall|a: int, b: int| 0 <= a < b < out@.len() implies entry_le(#[trigger] out@[a], #[trigger] out@[b]) by {
            if b < pos {
            } else if b == pos {
            } else if a < pos {
                assert(entry_le(out@[a], x));
                assert(entry_le(x, out@[b]));
                if out@[a].is_dir == x.is_dir && x.is_dir == out@[b].is_dir {
                    lemma_text_le_trans(out@[a].name@, x.name@, out@[b].name@);
                }
            } else if a == pos {
            } else {
                assert(out@[a] == before[a - 1]);
                assert(out@[b] == before[b - 1]);
            }
        }
        proof {
            vstd::seq_lib::to_multiset_insert(before, pos as int, x);
            vstd::seq_lib::to_multiset_build(entries@.subrange(0, i as int), x);
        }
        i = i + 1;
    }
    assert(entries@.subrange(0, n as int) == entries@);
    out
}

} // verus!

verus! {

// ---------------------------------------------------------------------------
// Reading replies
// ---------------------------------------------------------------------------

/// What follows the first blank line (`\r\n\r\n`) of a raw reply; the whole
/// reply when it holds none.
pub fn response_body(response: &str) -> (r: String)
    ensures
        (forall|k: int| !contains_at(response@, "\r\n\r\n"@, k)) ==> r@ == response@,
        (exists|i: int| contains_at(response@, "\r\n\r\n"@, i)) ==> exists|i: int|
            #![trigger contains_at(response@, "\r\n\r\n"@, i)]
            {
                &&& contains_at(response@, "\r\n\r\n"@, i)
                &&& forall|k: int| 0 <= k < i ==> !contains_at(response@, "\r\n\r\n"@, k)
                &&& r@ == response@.subrange(i + 4, response@.len() as int)
            },
{
    let v = chars_of(response);
    let sep = chars_of("\r\n\r\n");
    proof {
        reveal_strlit("\r\n\r\n");
    }
    assert(sep@.len() == 4);
    let mut i: usize = 0;
    while i < v.len()
        invariant
            v@ == response@,
            sep@ == "\r\n\r\n"@,
            sep@.len() == 4,
            0 <= i <= v.len(),
            forall|k: int| 0 <= k < i ==> !contains_at(v@, sep@, k),
        decreases v.len() - i,
    {
        if matches_at(&v, &sep, i) {
            let body = slice_chars(&v, i + 4, v.len());
            return string_of(&body);
        }
        i = i + 1;
    }
    assert forall|k: int| !contains_at(v@, sep@, k) by {
        if 0 <= k < i {
        } else {
        }
    }
    string_of(&v)
}

/// A file entry of a remote listing, from the fields that the listing gave;
/// a missing field reads as an empty name or path, not a directory, a file,
/// and size 0.
pub fn remote_entry(
    name: Option<String>,
    path: Option<String>,
    is_dir: Option<bool>,
    is_file: Option<bool>,
    size: Option<u64>,
) -> (r: RemoteEntry)
    ensures
        r.name@ == (match name { Some(n) => n@, None => Seq::<char>::empty() }),
        r.path@ == (match path { Some(p) => p@, None => Seq::<char>::empty() }),
        r.is_dir == (match is_dir { Some(b) => b, None => false }),
        r.is_file == (match is_file { Some(b) => b, None => true }),
        r.size == (match size { Some(s) => s, None => 0 }),
{
    let empty = Vec::<char>::new();
    RemoteEntry {
        name: match name { Some(n) => n, None => string_of(&empty) },
        path: match path { Some(p) => p, None => string_of(&empty) },
        is_dir: match is_dir { Some(b) => b, None => false },
        is_file: match is_file { Some(b) => b, None => true },
        size: match size { Some(s) => s, None => 0 },
    }
}

} // verus!
