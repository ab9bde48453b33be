use vstd::prelude::*;
use vstd::string::StringExecFns;
use crate::text::string_of;

verus! {

/// The extension of the last component of a path, as `Path::extension`
/// computes it with Unix path syntax (`/` alone separates components): the
/// text after the final `.` of the file name, unless the name has no `.`
/// besides a leading one.
pub uninterp spec fn path_extension(path: Seq<char>) -> Option<Seq<char>>;

/// `std::path::Path::new(path).extension()`, converted to a `String`.
#[verifier::external_body]
fn file_extension(path: &str) -> (e: Option<String>)
    ensures
        match e {
            Some(x) => path_extension(path@) == Some(x@),
            None => path_extension(path@) is None,
        },
{
    std::path::Path::new(path).extension().and_then(|x| x.to_str()).map(|x| x.to_string())
}

/// Extensions of formats that are already compressed.
pub open spec fn precompressed_extensions() -> Seq<Seq<char>> {
    seq![
        "mp4"@, "mp3"@, "zip"@, "gz"@, "bz2"@, "xz"@, "jpg"@, "jpeg"@, "png"@, "gif"@, "webp"@,
        "webm"@, "mkv"@, "avi"@, "mov"@, "flac"@, "ogg"@, "m4a"@, "pdf"@, "docx"@, "xlsx"@, "pptx"@,
    ]
}

/// Whether a file is worth compressing: its extension (the empty one when it
/// has none) is not that of an already-compressed format.
pub open spec fn worth_compressing(path: Seq<char>) -> bool {
    let ext = match path_extension(path) {
        Some(x) => x,
        None => Seq::empty(),
    };
    !precompressed_extensions().contains(ext)
}

fn str_list_contains(list: &Vec<&str>, s: &String) -> (r: bool)
    ensures
        r == list@.map_values(|x: &str| x@).contains(s@),
{
    let ghost views = list@.map_values(|x: &str| x@);
    let mut i: usize = 0;
    while i < list.len()
        invariant
            0 <= i <= list.len(),
            views == list@.map_values(|x: &str| x@),
            forall|j: int| 0 <= j < i ==> views[j] != s@,
        decreases list.len() - i,
    {
        if String::from_str(list[i]) == *s {
            assert(views[i as int] == s@);
            return true;
        }
        i = i + 1;
    }
    false
}

/// Whether a file should be compressed before sending.
pub fn should_compress(filename: &str) -> (r: bool)
    ensures
        r == worth_compressing(filename@),
{
    let list: Vec<&str> = vec![
        "mp4", "mp3", "zip", "gz", "bz2", "xz", "jpg", "jpeg", "png", "gif", "webp", "webm", "mkv",
        "avi", "mov", "flac", "ogg", "m4a", "pdf", "docx", "xlsx", "pptx",
    ];
    assert(list@.map_values(|x: &str| x@) == precompressed_extensions());
    let ext = match file_extension(filename) {
        Some(x) => x,
        None => String::new(),
    };
    !str_list_contains(&list, &ext)
}

/// The SHA-256 digest of a byte string.
pub uninterp spec fn sha256_of(data: Seq<u8>) -> Seq<u8>;

/// `sha2::Sha256::digest`: the 32-byte SHA-256 digest of `data`.
#[verifier::external_body]
fn sha256_digest(data: &[u8]) -> (d: Vec<u8>)
    ensures
        d@ == sha256_of(data@),
        d@.len() == 32,
{
    <sha2::Sha256 as sha2::Digest>::digest(data).to_vec()
}

/// The lower-case hex digit of a value below 16.
pub open spec fn hex_char(d: nat) -> char {
    if d < 10 { crate::text::digit_char(d) }
    else if d == 10 { 'a' }
    else if d == 11 { 'b' }
    else if d == 12 { 'c' }
    else if d == 13 { 'd' }
    else if d == 14 { 'e' }
    else { 'f' }
}

/// Two lower-case hex digits per byte.
pub open spec fn hex_lower(bytes: Seq<u8>) -> Seq<char>
    decreases bytes.len(),
{
    if bytes.len() == 0 {
        Seq::empty()
    } else {
        hex_lower(bytes.drop_last()) + seq![
            hex_char((bytes.last() / 16) as nat),
            hex_char((bytes.last() % 16) as nat),
        ]
    }
}

fn hex_digit(d: u8) -> (c: char)
    requires
        d < 16,
    ensures
        c == hex_char(d as nat),
{
    if d < 10 {
        crate::text::digit_to_char(d as u64)
    } else if d == 10 { 'a' }
    else if d == 11 { 'b' }
    else if d == 12 { 'c' }
    else if d == 13 { 'd' }
    else if d == 14 { 'e' }
    else { 'f' }
}

/// Lower-case hex encoding of a byte string.
pub fn to_hex_lower(bytes: &[u8]) -> (s: String)
    ensures
        s@ == hex_lower(bytes@),
{
    let mut out: Vec<char> = Vec::new();
    let mut i: usize = 0;
    while i < bytes.len()
        invariant
            0 <= i <= bytes.len(),
            out@ == hex_lower(bytes@.subrange(0, i as int)),
        decreases bytes.len() - i,
    {
        let b = bytes[i];
        out.push(hex_digit(b / 16));
        out.push(hex_digit(b % 16));
        i = i + 1;
        assert(bytes@.subrange(0, i as int).drop_last() == bytes@.subrange(0, i - 1));
    }
    assert(bytes@.subrange(0, bytes.len() as int) == bytes@);
    string_of(&out)
}

/// The SHA-256 digest of `data` as 64 lower-case hex digits.
pub fn compute_sha256(data: &[u8]) -> (s: String)
    ensures
        s@ == hex_lower(sha256_of(data@)),
        s@.len() == 64,
{
    let d = sha256_digest(data);
    proof {
        lemma_hex_lower_len(d@);
    }
    to_hex_lower(d.as_slice())
}

/// Two digits per byte.
pub proof fn lemma_hex_lower_len(bytes: Seq<u8>)
    ensures
        hex_lower(bytes).len() == 2 * bytes.len(),
    decreases bytes.len(),
{
    if bytes.len() > 0 {
        lemma_hex_lower_len(bytes.drop_last());
    }
}

/// The gzip stream that `flate2`'s encoder at the default level produces.
pub uninterp spec fn gzip_of(data: Seq<u8>) -> Seq<u8>;

/// Whether a byte string is a complete gzip stream, and what it decodes to.
pub uninterp spec fn gunzip_of(data: Seq<u8>) -> Option<Seq<u8>>;

/// `flate2::write::GzEncoder` at `Compression::default()` over a `Vec`:
/// the gzip encoding of `data`, which `GzDecoder` decodes back to `data`.
/// Writing to a `Vec` cannot fail.
#[verifier::external_body]
fn gzip_encode(data: &[u8]) -> (z: Vec<u8>)
    ensures
        z@ == gzip_of(data@),
        gunzip_of(z@) == Some(data@),
{
    let mut encoder = flate2::write::GzEncoder::new(Vec::new(), flate2::Compression::default());
    std::io::Write::write_all(&mut encoder, data).expect("writing to a Vec");
    encoder.finish().expect("writing to a Vec")
}

/// `flate2::read::GzDecoder` read to the end: the decoded bytes, or `None`
/// when `data` is no valid gzip stream.
#[verifier::external_body]
fn gzip_decode(data: &[u8]) -> (r: Option<Vec<u8>>)
    ensures
        match r {
            Some(v) => gunzip_of(data@) == Some(v@),
            None => gunzip_of(data@) is None,
        },
{
    let mut decoder = flate2::read::GzDecoder::new(data);
    let mut out = Vec::new();
    match std::io::Read::read_to_end(&mut decoder, &mut out) {
        Ok(_) => Some(out),
        Err(_) => None,
    }
}

/// Gzip-compress a payload; [`decompress_data`] gives it back.
pub fn compress_data(data: &[u8]) -> (z: Vec<u8>)
    ensures
        z@ == gzip_of(data@),
        gunzip_of(z@) == Some(data@),
{
    gzip_encode(data)
}

/// Decompress a gzip payload; `None` when it is no valid gzip stream.
pub fn decompress_data(data: &[u8]) -> (r: Option<Vec<u8>>)
    ensures
        match r {
            Some(v) => gunzip_of(data@) == Some(v@),
            None => gunzip_of(data@) is None,
        },
{
    gzip_decode(data)
}

/// The list after appending `x` and dropping the oldest entry when the
/// list then holds more than `cap`.
pub open spec fn pushed_bounded<T>(s: Seq<T>, x: T, cap: nat) -> Seq<T> {
    if s.len() + 1 > cap { s.push(x).drop_first() } else { s.push(x) }
}

/// Append `x`, dropping the oldest entry when the list would exceed `cap`.
pub fn push_bounded<T>(list: &mut Vec<T>, x: T, cap: usize)
    ensures
        final(list)@ == pushed_bounded(old(list)@, x, cap as nat),
{
    list.push(x);
    if list.len() > cap {
        list.remove(0);
    }
}

/// A bounded history never grows past its cap once within it, and always
/// ends with the newest entry.
pub proof fn law_bounded_history<T>(s: Seq<T>, x: T, cap: nat)
    requires
        s.len() <= cap,
        cap >= 1,
    ensures
        pushed_bounded(s, x, cap).len() <= cap,
        pushed_bounded(s, x, cap).last() == x,
        s.len() < cap ==> pushed_bounded(s, x, cap) == s.push(x),
{
}

/// Transfers kept in the history.
pub open spec fn session_history_cap() -> nat {
    100
}

/// Record a finished transfer, keeping the newest hundred.
pub fn store_session<T>(history: &mut Vec<T>, session: T)
    ensures
        final(history)@ == pushed_bounded(old(history)@, session, session_history_cap()),
{
    push_bounded(history, session, 100);
}

} // verus!
