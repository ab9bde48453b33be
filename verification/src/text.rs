use vstd::prelude::*;
use vstd::std_specs::iter::IteratorSpec;

verus! {

/// The character of a decimal digit value.
pub open spec fn digit_char(d: nat) -> char {
    if d == 0 { '0' }
    else if d == 1 { '1' }
    else if d == 2 { '2' }
    else if d == 3 { '3' }
    else if d == 4 { '4' }
    else if d == 5 { '5' }
    else if d == 6 { '6' }
    else if d == 7 { '7' }
    else if d == 8 { '8' }
    else { '9' }
}

/// The decimal representation of a natural number, without leading zeros.
pub open spec fn decimal(n: nat) -> Seq<char>
    decreases n,
{
    if n < 10 {
        seq![digit_char(n)]
    } else {
        decimal(n / 10).push(digit_char(n % 10))
    }
}

/// The character of a decimal digit value.
pub fn digit_to_char(d: u64) -> (c: char)
    requires
        d < 10,
    ensures
        c == digit_char(d as nat),
{
    if d == 0 { '0' }
    else if d == 1 { '1' }
    else if d == 2 { '2' }
    else if d == 3 { '3' }
    else if d == 4 { '4' }
    else if d == 5 { '5' }
    else if d == 6 { '6' }
    else if d == 7 { '7' }
    else if d == 8 { '8' }
    else { '9' }
}

/// Appends the decimal representation of `n` to `out`.
pub fn push_decimal(out: &mut Vec<char>, n: u64)
    ensures
        final(out)@ == old(out)@ + decimal(n as nat),
    decreases n,
{
    if n < 10 {
        out.push(digit_to_char(n));
    } else {
        push_decimal(out, n / 10);
        out.push(digit_to_char(n % 10));
    }
}

/// Appends every character of `s` to `out`.
pub fn push_chars(out: &mut Vec<char>, s: &Vec<char>)
    ensures
        final(out)@ == old(out)@ + s@,
{
    let ghost start = out@;
    let mut i: usize = 0;
    while i < s.len()
        invariant
            0 <= i <= s.len(),
            out@ == start + s@.subrange(0, i as int),
        decreases s.len() - i,
    {
        out.push(s[i]);
        i = i + 1;
        assert(s@.subrange(0, i as int) == s@.subrange(0, i - 1).push(s@[i - 1]));
    }
    assert(s@.subrange(0, s.len() as int) == s@);
}

/// Appends every character of `s` to `out`.
pub fn push_str(out: &mut Vec<char>, s: &str)
    ensures
        final(out)@ == old(out)@ + s@,
{
    let cs = chars_of(s);
    push_chars(out, &cs);
}

/// The characters of a string slice, in order.
pub fn chars_of(s: &str) -> (v: Vec<char>)
    ensures
        v@ == s@,
{
    broadcast use vstd::string::axiom_spec_iter, vstd::string::next_postcondition;

    let mut it = s.chars();
    let mut v: Vec<char> = Vec::new();
    loop
        invariant
            it.obeys_prophetic_iter_laws(),
            it.decrease() is Some,
            v@ + it.remaining() == s@,
        decreases it.decrease()->0,
    {
        let ghost before = it.remaining();
        match it.next() {
            Some(c) => {
                v.push(c);
                assert(v@ + it.remaining() == s@) by {
                    assert(before == seq![c] + it.remaining());
                }
            },
            None => {
                assert(v@ == s@);
                return v;
            },
        }
    }
}

/// `String::from_iter` over the given characters: the string made of them,
/// in order.
#[verifier::external_body]
pub(crate) fn string_of(v: &Vec<char>) -> (s: String)
    ensures
        s@ == v@,
{
    String::from_iter(v.iter())
}

} // verus!

verus! {

// ---------------------------------------------------------------------------
// Whitespace, lines and tokens
// ---------------------------------------------------------------------------

/// `char::is_whitespace`: the Unicode `White_Space` characters.
pub open spec fn is_space(c: char) -> bool {
    let n = c as u32;
    (9 <= n <= 13) || n == 32 || n == 0x85 || n == 0xA0 || n == 0x1680 || (0x2000 <= n <= 0x200A)
        || n == 0x2028 || n == 0x2029 || n == 0x202F || n == 0x205F || n == 0x3000
}

pub fn is_space_char(c: char) -> (r: bool)
    ensures
        r == is_space(c),
{
    let n = c as u32;
    (9 <= n && n <= 13) || n == 32 || n == 0x85 || n == 0xA0 || n == 0x1680 || (0x2000 <= n && n
        <= 0x200A) || n == 0x2028 || n == 0x2029 || n == 0x202F || n == 0x205F || n == 0x3000
}

/// The first index at or after `i` holding `c` (the length when none).
pub open spec fn find_from(s: Seq<char>, c: char, i: int) -> int
    decreases s.len() - i,
{
    if i >= s.len() {
        s.len() as int
    } else if s[i] == c {
        i
    } else {
        find_from(s, c, i + 1)
    }
}

/// `find_from` lands on the first `c` at or after `i`, or on the end.
pub proof fn lemma_find_from(s: Seq<char>, c: char, i: int)
    requires
        0 <= i <= s.len(),
    ensures
        i <= find_from(s, c, i) <= s.len(),
        forall|k: int| i <= k < find_from(s, c, i) ==> s[k] != c,
        find_from(s, c, i) < s.len() ==> s[find_from(s, c, i)] == c,
    decreases s.len() - i,
{
    if i < s.len() && s[i] != c {
        lemma_find_from(s, c, i + 1);
    }
}

/// The line starting at `i`: up to the next `\n`, without a `\r` that
/// directly precedes that `\n`.
pub open spec fn line_at(s: Seq<char>, i: int) -> Seq<char> {
    let j = find_from(s, '\n', i);
    let raw = s.subrange(i, j);
    if j < s.len() && raw.len() > 0 && raw.last() == '\r' {
        raw.drop_last()
    } else {
        raw
    }
}

/// `str::lines` of the text from index `i`.
pub open spec fn lines_from(s: Seq<char>, i: int) -> Seq<Seq<char>>
    decreases s.len() - i,
{
    if i < 0 || i >= s.len() {
        Seq::empty()
    } else {
        let j = find_from(s, '\n', i);
        proof {
            lemma_find_from(s, '\n', i);
        }
        if j >= s.len() {
            seq![line_at(s, i)]
        } else {
            seq![line_at(s, i)] + lines_from(s, j + 1)
        }
    }
}

/// `str::lines`: the lines of a text, split at `\n` (a `\r` just before it
/// dropped), with no empty line after a final `\n`.
pub open spec fn lines(s: Seq<char>) -> Seq<Seq<char>> {
    lines_from(s, 0)
}

/// `str::split_whitespace` of the text from index `i`.
pub open spec fn tokens_from(s: Seq<char>, i: int) -> Seq<Seq<char>>
    decreases s.len() - i,
{
    if i < 0 || i >= s.len() {
        Seq::empty()
    } else if is_space(s[i]) {
        tokens_from(s, i + 1)
    } else {
        let j = token_end(s, i);
        proof {
            lemma_token_end(s, i);
        }
        seq![s.subrange(i, j)] + tokens_from(s, j)
    }
}

/// The first index at or after `i` holding whitespace (the length when none).
pub open spec fn token_end(s: Seq<char>, i: int) -> int
    decreases s.len() - i,
{
    if i >= s.len() {
        s.len() as int
    } else if is_space(s[i]) {
        i
    } else {
        token_end(s, i + 1)
    }
}

/// A token ends at a space or at the end of the text, after `i`.
pub proof fn lemma_token_end(s: Seq<char>, i: int)
    requires
        0 <= i <= s.len(),
    ensures
        i <= token_end(s, i) <= s.len(),
        i < s.len() && !is_space(s[i]) ==> i < token_end(s, i),
        forall|k: int| i <= k < token_end(s, i) ==> !is_space(s[k]),
        token_end(s, i) < s.len() ==> is_space(s[token_end(s, i)]),
    decreases s.len() - i,
{
    if i < s.len() && !is_space(s[i]) {
        lemma_token_end(s, i + 1);
    }
}

/// `str::split_whitespace`: the maximal runs of non-whitespace characters.
pub open spec fn tokens(s: Seq<char>) -> Seq<Seq<char>> {
    tokens_from(s, 0)
}

/// `str::starts_with`.
pub open spec fn starts_with(s: Seq<char>, p: Seq<char>) -> bool {
    p.len() <= s.len() && s.subrange(0, p.len() as int) == p
}

/// `str::contains` for a pattern text.
pub open spec fn contains_at(s: Seq<char>, p: Seq<char>, i: int) -> bool {
    0 <= i && i + p.len() <= s.len() && s.subrange(i, i + p.len()) == p
}

/// `str::contains`: `p` occurs somewhere in `s`.
pub open spec fn contains(s: Seq<char>, p: Seq<char>) -> bool {
    exists|i: int| contains_at(s, p, i)
}

/// `str::trim`: without leading and trailing whitespace.
pub open spec fn trim(s: Seq<char>) -> Seq<char>
    decreases s.len(),
{
    if s.len() > 0 && is_space(s[0]) {
        trim(s.drop_first())
    } else if s.len() > 0 && is_space(s.last()) {
        trim(s.drop_last())
    } else {
        s
    }
}

/// `str::split(c)`: the pieces between occurrences of `c` (always at least one).
pub open spec fn split_from(s: Seq<char>, c: char, i: int) -> Seq<Seq<char>>
    decreases s.len() - i,
{
    if i < 0 || i > s.len() {
        Seq::empty()
    } else {
        let j = find_from(s, c, i);
        proof {
            lemma_find_from(s, c, i);
        }
        if j >= s.len() {
            seq![s.subrange(i, s.len() as int)]
        } else {
            seq![s.subrange(i, j)] + split_from(s, c, j + 1)
        }
    }
}

/// Splitting yields at least one piece.
pub proof fn lemma_split_from_nonempty(s: Seq<char>, c: char, i: int)
    requires
        0 <= i <= s.len(),
    ensures
        split_from(s, c, i).len() >= 1,
    decreases s.len() - i,
{
    lemma_find_from(s, c, i);
    let j = find_from(s, c, i);
    if j < s.len() {
        lemma_split_from_nonempty(s, c, j + 1);
    }
}

/// `str::split(c)`: the pieces between the occurrences of `c`.
pub open spec fn split_on(s: Seq<char>, c: char) -> Seq<Seq<char>> {
    split_from(s, c, 0)
}

// ---------------------------------------------------------------------------
// Executable counterparts
// ---------------------------------------------------------------------------

/// The texts held by a list of character vectors.
pub open spec fn views(s: Seq<Vec<char>>) -> Seq<Seq<char>> {
    s.map_values(|x: Vec<char>| x@)
}

/// The texts of a list after a push.
pub proof fn lemma_views_push(s: Seq<Vec<char>>, x: Vec<char>)
    ensures
        views(s.push(x)) == views(s).push(x@),
{
    assert(views(s.push(x)) =~= views(s).push(x@));
}

/// Index of the first `c` at or after `i` (the length when none).
pub fn find_char_from(v: &Vec<char>, c: char, i: usize) -> (j: usize)
    requires
        i <= v.len(),
    ensures
        j == find_from(v@, c, i as int),
{
    proof {
        lemma_find_from(v@, c, i as int);
    }
    let mut j = i;
    while j < v.len() && v[j] != c
        invariant
            i <= j <= v.len(),
            find_from(v@, c, j as int) == find_from(v@, c, i as int),
        decreases v.len() - j,
    {
        j = j + 1;
    }
    j
}

/// The characters `v[lo..hi]`.
pub fn slice_chars(v: &Vec<char>, lo: usize, hi: usize) -> (r: Vec<char>)
    requires
        lo <= hi <= v.len(),
    ensures
        r@ == v@.subrange(lo as int, hi as int),
{
    let mut r: Vec<char> = Vec::new();
    let mut k = lo;
    while k < hi
        invariant
            lo <= k <= hi,
            hi <= v.len(),
            r@ == v@.subrange(lo as int, k as int),
        decreases hi - k,
    {
        r.push(v[k]);
        k = k + 1;
    }
    r
}

/// The line starting at `i`, and where the next one starts.
pub fn next_line(v: &Vec<char>, i: usize) -> (r: (Vec<char>, usize))
    requires
        i < v.len(),
    ensures
        lines_from(v@, i as int) == seq![r.0@] + lines_from(v@, r.1 as int),
        i < r.1 <= v.len(),
{
    let j = find_char_from(v, '\n', i);
    proof {
        lemma_find_from(v@, '\n', i as int);
    }
    let end = if j < v.len() && j > i && v[j - 1] == '\r' { j - 1 } else { j };
    let line = slice_chars(v, i, end);
    let next = if j < v.len() { j + 1 } else { j };
    assert(line@ == line_at(v@, i as int));
    proof {
        if j >= v.len() {
            assert(lines_from(v@, (j + 1) as int) == Seq::<Seq<char>>::empty());
            assert(lines_from(v@, j as int) == Seq::<Seq<char>>::empty());
        }
    }
    (line, next)
}

/// `str::lines`.
pub fn split_lines(v: &Vec<char>) -> (ls: Vec<Vec<char>>)
    ensures
        views(ls@) == lines(v@),
{
    let mut ls: Vec<Vec<char>> = Vec::new();
    let mut i: usize = 0;
    while i < v.len()
        invariant
            i <= v.len(),
            views(ls@) + lines_from(v@, i as int) == lines(v@),
        decreases v.len() - i,
    {
        let (line, next) = next_line(v, i);
        let ghost before = views(ls@);
        proof {
            lemma_views_push(ls@, line);
        }
        ls.push(line);
        assert(views(ls@) + lines_from(v@, next as int) =~= before + (seq![line@] + lines_from(v@, next as int)));
        i = next;
    }
    assert(lines_from(v@, i as int) == Seq::<Seq<char>>::empty());
    assert(views(ls@) + Seq::<Seq<char>>::empty() =~= views(ls@));
    ls
}

/// `str::split_whitespace`.
pub fn split_tokens(v: &Vec<char>) -> (ts: Vec<Vec<char>>)
    ensures
        views(ts@) == tokens(v@),
{
    let mut ts: Vec<Vec<char>> = Vec::new();
    let mut i: usize = 0;
    while i < v.len()
        invariant
            i <= v.len(),
            views(ts@) + tokens_from(v@, i as int) == tokens(v@),
        decreases v.len() - i,
    {
        if is_space_char(v[i]) {
            assert(tokens_from(v@, i as int) == tokens_from(v@, i + 1));
            i = i + 1;
        } else {
            proof {
                lemma_token_end(v@, i as int);
            }
            let mut j = i;
            while j < v.len() && !is_space_char(v[j])
                invariant
                    i <= j <= v.len(),
                    token_end(v@, j as int) == token_end(v@, i as int),
                decreases v.len() - j,
            {
                j = j + 1;
            }
            let tok = slice_chars(v, i, j);
            let ghost before = views(ts@);
            proof {
                lemma_views_push(ts@, tok);
            }
            ts.push(tok);
            assert(views(ts@) + tokens_from(v@, j as int) =~= before + (seq![tok@] + tokens_from(v@, j as int)));
            i = j;
        }
    }
    assert(views(ts@) + Seq::<Seq<char>>::empty() =~= views(ts@));
    ts
}

/// `str::starts_with`.
pub fn starts_with_str(v: &Vec<char>, p: &str) -> (r: bool)
    ensures
        r == starts_with(v@, p@),
{
    let pc = chars_of(p);
    if pc.len() > v.len() {
        return false;
    }
    let mut k: usize = 0;
    while k < pc.len()
        invariant
            pc@ == p@,
            pc.len() <= v.len(),
            0 <= k <= pc.len(),
            v@.subrange(0, k as int) == pc@.subrange(0, k as int),
        decreases pc.len() - k,
    {
        if v[k] != pc[k] {
            assert(v@.subrange(0, pc.len() as int)[k as int] != pc@[k as int]);
            return false;
        }
        k = k + 1;
        assert(v@.subrange(0, k as int) =~= v@.subrange(0, k - 1).push(v@[k - 1]));
        assert(pc@.subrange(0, k as int) =~= pc@.subrange(0, k - 1).push(pc@[k - 1]));
    }
    assert(pc@.subrange(0, pc.len() as int) == pc@);
    true
}

/// Whether `p` occurs in `v` at `i`.
pub fn matches_at(v: &Vec<char>, p: &Vec<char>, i: usize) -> (r: bool)
    ensures
        r == contains_at(v@, p@, i as int),
{
    if p.len() > v.len() || i > v.len() - p.len() {
        return false;
    }
    let mut k: usize = 0;
    while k < p.len()
        invariant
            i + p.len() <= v.len(),
            0 <= k <= p.len(),
            v@.subrange(i as int, i + k) == p@.subrange(0, k as int),
        decreases p.len() - k,
    {
        if v[i + k] != p[k] {
            assert(v@.subrange(i as int, i + p.len())[k as int] != p@[k as int]);
            return false;
        }
        k = k + 1;
        assert(v@.subrange(i as int, i + k) =~= v@.subrange(i as int, i + k - 1).push(v@[i + k - 1]));
    }
    assert(p@.subrange(0, p.len() as int) == p@);
    true
}

/// `str::contains`.
pub fn contains_str(v: &Vec<char>, p: &str) -> (r: bool)
    ensures
        r == contains(v@, p@),
{
    let pc = chars_of(p);
    let mut i: usize = 0;
    while i < v.len()
        invariant
            pc@ == p@,
            0 <= i <= v.len(),
            forall|k: int| 0 <= k < i ==> !contains_at(v@, p@, k),
        decreases v.len() - i,
    {
        if matches_at(v, &pc, i) {
            return true;
        }
        i = i + 1;
    }
    if matches_at(v, &pc, i) {
        return true;
    }
    assert forall|k: int| !contains_at(v@, p@, k) by {
        if 0 <= k < i {
        } else if k == i {
        } else {
        }
    }
    false
}

/// Equality of a character vector with a text.
pub fn chars_eq_str(v: &Vec<char>, p: &str) -> (r: bool)
    ensures
        r == (v@ == p@),
{
    let pc = chars_of(p);
    if pc.len() != v.len() {
        return false;
    }
    let r = starts_with_str(v, p);
    assert(v@.subrange(0, v.len() as int) == v@);
    r
}

/// `str::trim`.
pub fn trim_chars(v: &Vec<char>) -> (r: Vec<char>)
    ensures
        r@ == trim(v@),
{
    let mut lo: usize = 0;
    let mut hi: usize = v.len();
    assert(v@.subrange(0, v.len() as int) == v@);
    while lo < hi && is_space_char(v[lo])
        invariant
            0 <= lo <= hi == v.len(),
            trim(v@.subrange(lo as int, hi as int)) == trim(v@),
        decreases hi - lo,
    {
        assert(v@.subrange(lo as int, hi as int).drop_first() == v@.subrange(lo + 1, hi as int));
        lo = lo + 1;
    }
    while lo < hi && is_space_char(v[hi - 1])
        invariant
            0 <= lo <= hi <= v.len(),
            trim(v@.subrange(lo as int, hi as int)) == trim(v@),
            lo < hi ==> !is_space(v@[lo as int]),
        decreases hi - lo,
    {
        assert(v@.subrange(lo as int, hi as int).drop_last() == v@.subrange(lo as int, hi - 1));
        hi = hi - 1;
    }
    slice_chars(v, lo, hi)
}

/// `str::split(c)`.
pub fn split_char(v: &Vec<char>, c: char) -> (ps: Vec<Vec<char>>)
    ensures
        views(ps@) == split_on(v@, c),
        ps@.len() >= 1,
{
    let mut ps: Vec<Vec<char>> = Vec::new();
    let mut i: usize = 0;
    loop
        invariant
            i <= v.len(),
            views(ps@) + split_from(v@, c, i as int) == split_on(v@, c),
        decreases v.len() - i,
    {
        let j = find_char_from(v, c, i);
        proof {
            lemma_find_from(v@, c, i as int);
        }
        let piece = slice_chars(v, i, j);
        let ghost before = views(ps@);
        proof {
            lemma_views_push(ps@, piece);
        }
        ps.push(piece);
        if j >= v.len() {
            assert(views(ps@) =~= before + split_from(v@, c, i as int));
            return ps;
        }
        assert(views(ps@) + split_from(v@, c, j + 1) =~= before + (seq![piece@] + split_from(v@, c, j + 1)));
        i = j + 1;
    }
}

} // verus!

verus! {

// ---------------------------------------------------------------------------
// Integer parsing (`str::parse` / `from_str_radix` for unsigned types)
// ---------------------------------------------------------------------------

/// `char::to_digit(radix)` for radix 2..=36.
pub open spec fn digit_value(c: char, radix: nat) -> Option<nat> {
    let n = c as u32;
    let v: int = if 48 <= n <= 57 {
        n - 48
    } else if 97 <= n <= 122 {
        n - 97 + 10
    } else if 65 <= n <= 90 {
        n - 65 + 10
    } else {
        99
    };
    if v < radix { Some(v as nat) } else { None }
}

/// Every character is a digit of the radix.
pub open spec fn all_digits_in(d: Seq<char>, radix: nat) -> bool {
    forall|i: int| 0 <= i < d.len() ==> (#[trigger] digit_value(d[i], radix)) is Some
}

/// The value of a digit string in the given radix.
pub open spec fn radix_value(d: Seq<char>, radix: nat) -> int
    decreases d.len(),
{
    if d.len() == 0 {
        0
    } else {
        radix_value(d.drop_last(), radix) * radix + digit_value(d.last(), radix).unwrap()
    }
}

/// The digits of an unsigned number text: without a leading `+` sign.
pub open spec fn unsigned_digits(s: Seq<char>) -> Seq<char> {
    if s.len() >= 2 && s[0] == '+' { s.drop_first() } else { s }
}

/// Unsigned `from_str_radix` with the type's maximum `max`: a non-empty
/// digit string, optionally after `+`, whose value is at most `max`.
pub open spec fn parse_unsigned(s: Seq<char>, radix: nat, max: int) -> Option<int> {
    let d = unsigned_digits(s);
    if d.len() > 0 && all_digits_in(d, radix) && radix_value(d, radix) <= max {
        Some(radix_value(d, radix))
    } else {
        None
    }
}

/// `s.parse::<u64>().unwrap_or(0)`.
pub open spec fn u64_or_zero(s: Seq<char>) -> u64 {
    match parse_unsigned(s, 10, u64::MAX as int) {
        Some(v) => v as u64,
        None => 0,
    }
}

/// The value of a prefix of digits is at most that of the whole.
pub proof fn lemma_radix_value_grows(d: Seq<char>, k: int, radix: nat)
    requires
        0 <= k <= d.len(),
        radix >= 1,
        all_digits_in(d, radix),
    ensures
        0 <= radix_value(d.subrange(0, k), radix) <= radix_value(d, radix),
    decreases d.len() - k,
{
    if k < d.len() {
        lemma_radix_value_grows(d, k + 1, radix);
        let p = d.subrange(0, k + 1);
        assert(p.drop_last() == d.subrange(0, k));
        assert(digit_value(p.last(), radix) is Some);
        lemma_radix_value_nonneg(d.subrange(0, k), radix);
        assert(radix_value(d.subrange(0, k), radix) * radix >= radix_value(d.subrange(0, k), radix))
            by (nonlinear_arith)
            requires
                radix >= 1,
                radix_value(d.subrange(0, k), radix) >= 0,
        ;
    } else {
        assert(d.subrange(0, k) == d);
        lemma_radix_value_nonneg(d, radix);
    }
}

/// Digit values are never negative.
pub proof fn lemma_radix_value_nonneg(d: Seq<char>, radix: nat)
    requires
        all_digits_in(d, radix),
    ensures
        radix_value(d, radix) >= 0,
    decreases d.len(),
{
    if d.len() > 0 {
        assert(all_digits_in(d.drop_last(), radix)) by {
            assert forall|i: int| 0 <= i < d.drop_last().len() implies (#[trigger] digit_value(d.drop_last()[i], radix)) is Some by {
                assert(d.drop_last()[i] == d[i]);
            }
        }
        lemma_radix_value_nonneg(d.drop_last(), radix);
        assert(digit_value(d.last(), radix) is Some);
        assert(radix_value(d.drop_last(), radix) * radix >= 0) by (nonlinear_arith)
            requires
                radix_value(d.drop_last(), radix) >= 0,
        ;
    }
}

fn digit_value_exec(c: char, radix: u32) -> (r: Option<u32>)
    requires
        2 <= radix <= 36,
    ensures
        match r {
            Some(v) => digit_value(c, radix as nat) == Some(v as nat),
            None => digit_value(c, radix as nat) is None,
        },
{
    let n = c as u32;
    let v: u32 = if 48 <= n && n <= 57 {
        n - 48
    } else if 97 <= n && n <= 122 {
        n - 97 + 10
    } else if 65 <= n && n <= 90 {
        n - 65 + 10
    } else {
        99
    };
    if v < radix { Some(v) } else { None }
}

/// Unsigned `from_str_radix` on `v[lo..hi]`, for a type whose maximum is `max`.
pub fn parse_unsigned_range(v: &Vec<char>, lo: usize, hi: usize, radix: u32, max: u64) -> (r: Option<u64>)
    requires
        lo <= hi <= v.len(),
        2 <= radix <= 36,
    ensures
        match r {
            Some(x) => parse_unsigned(v@.subrange(lo as int, hi as int), radix as nat, max as int) == Some(x as int),
            None => parse_unsigned(v@.subrange(lo as int, hi as int), radix as nat, max as int) is None,
        },
{
    let ghost s = v@.subrange(lo as int, hi as int);
    let start = if hi - lo >= 2 && v[lo] == '+' { lo + 1 } else { lo };
    let ghost d = v@.subrange(start as int, hi as int);
    assert(d == unsigned_digits(s));
    if start == hi {
        return None;
    }
    let mut acc: u128 = 0;
    let mut k = start;
    while k < hi
        invariant
            lo <= start <= k <= hi <= v.len(),
            2 <= radix <= 36,
            d == v@.subrange(start as int, hi as int),
            d == unsigned_digits(v@.subrange(lo as int, hi as int)),
            all_digits_in(v@.subrange(start as int, k as int), radix as nat),
            acc == radix_value(v@.subrange(start as int, k as int), radix as nat),
            acc <= max,
        decreases hi - k,
    {
        let dv = digit_value_exec(v[k], radix);
        match dv {
            None => {
                assert(d[k - start] == v@[k as int]);
                assert(digit_value(d[k - start], radix as nat) is None);
                assert(!all_digits_in(d, radix as nat));
                return None;
            },
            Some(x) => {
                let ghost pre = v@.subrange(start as int, k as int);
                let ghost post = v@.subrange(start as int, k + 1);
                assert(post.drop_last() == pre);
                assert(all_digits_in(post, radix as nat)) by {
                    assert forall|i: int| 0 <= i < post.len() implies (#[trigger] digit_value(post[i], radix as nat)) is Some by {
                        if i < pre.len() { assert(post[i] == pre[i]); }
                    }
                }
                assert(post.last() == v@[k as int]);
                assert(acc * (radix as u128) <= 36 * (u64::MAX as int)) by (nonlinear_arith)
                    requires
                        acc <= u64::MAX,
                        radix <= 36,
                ;
                acc = acc * (radix as u128) + (x as u128);
                assert(acc == radix_value(post, radix as nat));
                if acc > max as u128 {
                    proof {
                        if all_digits_in(d, radix as nat) {
                            assert(post == d.subrange(0, (k + 1 - start) as int));
                            lemma_radix_value_grows(d, (k + 1 - start) as int, radix as nat);
                        }
                    }
                    return None;
                }
                k = k + 1;
            },
        }
    }
    assert(v@.subrange(start as int, k as int) == d);
    Some(acc as u64)
}

/// `text.parse::<u64>()`.
pub fn parse_u64(v: &Vec<char>) -> (r: Option<u64>)
    ensures
        match r {
            Some(x) => parse_unsigned(v@, 10, u64::MAX as int) == Some(x as int),
            None => parse_unsigned(v@, 10, u64::MAX as int) is None,
        },
{
    assert(v@.subrange(0, v.len() as int) == v@);
    parse_unsigned_range(v, 0, v.len(), 10, u64::MAX)
}

/// `text.parse::<u64>().unwrap_or(0)`.
pub fn parse_u64_or_zero(v: &Vec<char>) -> (r: u64)
    ensures
        r == u64_or_zero(v@),
{
    match parse_u64(v) {
        Some(x) => x,
        None => 0,
    }
}

} // verus!
