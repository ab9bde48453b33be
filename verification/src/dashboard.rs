use vstd::prelude::*;
use vstd::string::StringExecFns;
use crate::http::{decode_from, first_header, first_header_exec, query_param, parse_query_param, url_decode};
use crate::text::{chars_of, decimal, push_chars, push_decimal, push_str, slice_chars, split_char, split_on, starts_with, starts_with_str, string_of, trim, trim_chars, u64_or_zero, parse_unsigned, parse_unsigned_range, views, lines, split_lines};

verus! {

// ---------------------------------------------------------------------------
// Paths
// ---------------------------------------------------------------------------

/// `path` with a leading `~/` replaced by the home directory.
pub open spec fn home_expanded(path: Seq<char>, home: Seq<char>) -> Seq<char> {
    if starts_with(path, "~/"@) { home + "/"@ + path.subrange(2, path.len() as int) } else { path }
}

/// Replace a leading `~/` by the home directory `home`.
pub fn expand_home(path: &str, home: &str) -> (r: String)
    ensures
        r@ == home_expanded(path@, home@),
{
    let v = chars_of(path);
    if starts_with_str(&v, "~/") {
        proof {
            reveal_strlit("~/");
        }
        let mut out: Vec<char> = Vec::new();
        push_str(&mut out, home);
        push_str(&mut out, "/");
        let rest = slice_chars(&v, 2, v.len());
        push_chars(&mut out, &rest);
        string_of(&out)
    } else {
        String::from_str(path)
    }
}

/// `dir/name`.
pub fn join_path(dir: &str, name: &str) -> (r: String)
    ensures
        r@ == dir@ + "/"@ + name@,
{
    let mut out: Vec<char> = Vec::new();
    push_str(&mut out, dir);
    push_str(&mut out, "/");
    push_str(&mut out, name);
    string_of(&out)
}

/// Where received files go: `~/Downloads/PDOS` under the home directory.
pub fn downloads_dir(home: &str) -> (r: String)
    ensures
        r@ == home@ + "/Downloads/PDOS"@,
{
    let mut out: Vec<char> = Vec::new();
    push_str(&mut out, home);
    push_str(&mut out, "/Downloads/PDOS");
    string_of(&out)
}

/// The name of a file received at time `timestamp` without a name of its own.
pub open spec fn received_name(timestamp: u64) -> Seq<char> {
    "received_"@ + decimal(timestamp as nat)
}

fn received_name_exec(timestamp: u64) -> (r: String)
    ensures
        r@ == received_name(timestamp),
{
    let mut out: Vec<char> = Vec::new();
    push_str(&mut out, "received_");
    push_decimal(&mut out, timestamp);
    string_of(&out)
}

/// Whether `s` holds `..` at `i`.
pub open spec fn dot_dot_at(s: Seq<char>, i: int) -> bool {
    0 <= i && i + 1 < s.len() && s[i] == '.' && s[i + 1] == '.'
}

/// Whether `s` holds `..` somewhere.
pub open spec fn has_dot_dot(s: Seq<char>) -> bool {
    exists|i: int| #[trigger] dot_dot_at(s, i)
}

/// A name that stays inside the folder it is joined to: not empty, not `.`,
/// without a path separator (`/` or `\`) and without `..`.
pub open spec fn safe_file_name(s: Seq<char>) -> bool {
    &&& s.len() > 0
    &&& s != seq!['.']
    &&& forall|i: int| 0 <= i < s.len() ==> s[i] != '/' && s[i] != '\\'
    &&& !has_dot_dot(s)
}

/// `s` with its path separators (`/` and `\`) replaced by `_`.
pub open spec fn without_separators(s: Seq<char>) -> Seq<char> {
    replace_char(replace_char(s, '/', '_'), '\\', '_')
}

/// The name a requested file name is stored under: its separators become
/// `_`; when what is left is empty, `.` or holds `..`, the time-stamped
/// name is used instead.
pub open spec fn stored_name(requested: Seq<char>, timestamp: u64) -> Seq<char> {
    let r = without_separators(requested);
    if r.len() > 0 && r != seq!['.'] && !has_dot_dot(r) {
        r
    } else {
        received_name(timestamp)
    }
}

/// Every character of a decimal numeral is a digit.
proof fn lemma_decimal_digits(n: nat)
    ensures
        forall|i: int| 0 <= i < decimal(n).len() ==> '0' <= #[trigger] decimal(n)[i] <= '9',
    decreases n,
{
    let c = crate::text::digit_char(n % 10);
    assert('0' <= c <= '9');
    if n >= 10 {
        lemma_decimal_digits(n / 10);
        let d = decimal(n / 10);
        assert(decimal(n) == d.push(c));
        assert forall|i: int| 0 <= i < decimal(n).len() implies '0' <= #[trigger] decimal(n)[i] <= '9' by {
            if i < d.len() {
                assert(decimal(n)[i] == d[i]);
            }
        }
    } else {
        assert(decimal(n) == seq![c]);
    }
}

/// A time-stamped name is a safe one.
proof fn lemma_received_name_safe(timestamp: u64)
    ensures
        safe_file_name(received_name(timestamp)),
{
    reveal_strlit("received_");
    lemma_decimal_digits(timestamp as nat);
    let r = received_name(timestamp);
    let d = decimal(timestamp as nat);
    assert forall|i: int| 0 <= i < r.len() implies r[i] != '.' && r[i] != '/' && r[i] != '\\' by {
        if i >= 9 {
            assert(r[i] == d[i - 9]);
        }
    }
    assert(r.len() > 1);
    assert(r != seq!['.']);
    assert forall|k: int| !dot_dot_at(r, k) by {
        if 0 <= k && k + 1 < r.len() {
            assert(r[k] != '.');
        }
    }
}

fn has_dot_dot_exec(v: &Vec<char>) -> (r: bool)
    ensures
        r == has_dot_dot(v@),
{
    if v.len() < 2 {
        assert forall|k: int| !dot_dot_at(v@, k) by {}
        return false;
    }
    let mut i: usize = 0;
    while i < v.len() - 1
        invariant
            v.len() >= 2,
            i <= v.len() - 1,
            forall|k: int| 0 <= k < i ==> !#[trigger] dot_dot_at(v@, k),
        decreases v.len() - i,
    {
        if v[i] == '.' && v[i + 1] == '.' {
            assert(dot_dot_at(v@, i as int));
            return true;
        }
        i = i + 1;
    }
    assert forall|k: int| !dot_dot_at(v@, k) by {
        if 0 <= k < i {
        }
    }
    false
}

/// The name a requested file name is stored under (see [`stored_name`]);
/// always a safe one.
pub fn safe_stored_name(requested: &Vec<char>, timestamp: u64) -> (r: String)
    ensures
        r@ == stored_name(requested@, timestamp),
        safe_file_name(r@),
{
    let a = replace_char_exec(requested, '/', '_');
    let b = replace_char_exec(&a, '\\', '_');
    let dot = b.len() == 1 && b[0] == '.';
    assert(dot == (b@ == seq!['.'])) by {
        if b@.len() == 1 && b@[0] == '.' {
            assert(b@ =~= seq!['.']);
        }
    }
    if b.len() > 0 && !dot && !has_dot_dot_exec(&b) {
        assert forall|i: int| 0 <= i < b@.len() implies b@[i] != '/' && b@[i] != '\\' by {
            assert(b@[i] == (if a@[i] == '\\' { '_' } else { a@[i] }));
        }
        string_of(&b)
    } else {
        proof {
            lemma_received_name_safe(timestamp);
        }
        received_name_exec(timestamp)
    }
}

/// The file name a UDP or QUIC receive is stored under: the requested name,
/// or a time-stamped one when it is empty.
pub fn udp_target_name(filename: &str, timestamp: u64) -> (r: String)
    ensures
        r@ == if filename@.len() == 0 { received_name(timestamp) } else { filename@ },
{
    if filename.unicode_len() == 0 {
        received_name_exec(timestamp)
    } else {
        String::from_str(filename)
    }
}

// ---------------------------------------------------------------------------
// Streaming uploads from the browser
// ---------------------------------------------------------------------------

/// `s` with every `from` replaced by `to`.
pub open spec fn replace_char(s: Seq<char>, from: char, to: char) -> Seq<char> {
    Seq::new(s.len(), |i: int| if s[i] == from { to } else { s[i] })
}

fn replace_char_exec(v: &Vec<char>, from: char, to: char) -> (r: Vec<char>)
    ensures
        r@ == replace_char(v@, from, to),
{
    let mut out: Vec<char> = Vec::new();
    let mut i: usize = 0;
    while i < v.len()
        invariant
            0 <= i <= v.len(),
            out@ == replace_char(v@, from, to).subrange(0, i as int),
        decreases v.len() - i,
    {
        out.push(if v[i] == from { to } else { v[i] });
        i = i + 1;
    }
    out
}

/// A browser upload, ready to be spooled to a temporary file.
pub struct StreamUpload {
    pub node_id: String,
    pub filename: String,
    pub tmp_path: String,
}

/// Why an upload request was refused.
#[derive(Debug, Clone, Copy, PartialEq, Eq, Structural)]
pub enum UploadError {
    /// No target node was named, or the body is empty.
    MissingNodeOrEmpty,
}

/// The target node of an upload (empty when not given).
pub open spec fn upload_node(query: Seq<char>) -> Seq<char> {
    match query_param(query, "node_id"@) {
        Some(v) => v,
        None => Seq::empty(),
    }
}

/// The decoded file name of an upload (`upload.bin` when not given).
pub open spec fn upload_filename(query: Seq<char>) -> Seq<char> {
    match query_param(query, "filename"@) {
        Some(v) => decode_from(v, 0),
        None => decode_from("upload.bin"@, 0),
    }
}

/// The temporary file an upload is spooled to: `/tmp/pdos_stream_` and the
/// file name with every `/` made `_`.
pub open spec fn upload_tmp_path(filename: Seq<char>) -> Seq<char> {
    "/tmp/pdos_stream_"@ + replace_char(filename, '/', '_')
}

/// Read an upload request from its query string and body size: refused when
/// no node is named or the body is empty.
pub fn stream_upload_request(query: &str, content_length: usize) -> (r: Result<StreamUpload, UploadError>)
    ensures
        (upload_node(query@).len() == 0 || content_length == 0) <==> r is Err,
        r matches Ok(u) ==> {
            &&& u.node_id@ == upload_node(query@)
            &&& u.filename@ == upload_filename(query@)
            &&& u.tmp_path@ == upload_tmp_path(upload_filename(query@))
        },
{
    let node_id = match parse_query_param(query, "node_id") {
        Some(v) => v,
        None => String::new(),
    };
    let filename = match parse_query_param(query, "filename") {
        Some(v) => url_decode(v.as_str()),
        None => url_decode("upload.bin"),
    };
    if node_id.unicode_len() == 0 || content_length == 0 {
        return Err(UploadError::MissingNodeOrEmpty);
    }
    let fv = chars_of(filename.as_str());
    let safe = replace_char_exec(&fv, '/', '_');
    let mut p: Vec<char> = Vec::new();
    push_str(&mut p, "/tmp/pdos_stream_");
    push_chars(&mut p, &safe);
    Ok(StreamUpload { node_id, filename, tmp_path: string_of(&p) })
}

/// A hexadecimal digit, in either case.
pub open spec fn hex_digit(c: char) -> bool {
    ('0' <= c <= '9') || ('a' <= c <= 'f') || ('A' <= c <= 'F')
}

/// The simple form of a UUID: 32 hexadecimal digits.
pub open spec fn uuid_simple(s: Seq<char>) -> bool {
    s.len() == 32 && forall|i: int| 0 <= i < 32 ==> #[trigger] hex_digit(s[i])
}

/// Position `i` of the hyphenated form: `-` at 8, 13, 18 and 23, a
/// hexadecimal digit elsewhere.
pub open spec fn uuid_hyphenated_char(s: Seq<char>, i: int) -> bool {
    if i == 8 || i == 13 || i == 18 || i == 23 { s[i] == '-' } else { hex_digit(s[i]) }
}

/// The hyphenated form of a UUID, such as `550e8400-e29b-41d4-a716-446655440000`.
pub open spec fn uuid_hyphenated(s: Seq<char>) -> bool {
    s.len() == 36 && forall|i: int| 0 <= i < 36 ==> #[trigger] uuid_hyphenated_char(s, i)
}

/// Whether the first nine characters are `urn:uuid:`, letters in any case.
pub open spec fn urn_prefix(s: Seq<char>) -> bool {
    &&& s.len() >= 9
    &&& (s[0] == 'u' || s[0] == 'U') && (s[1] == 'r' || s[1] == 'R') && (s[2] == 'n' || s[2] == 'N')
    &&& s[3] == ':'
    &&& (s[4] == 'u' || s[4] == 'U') && (s[5] == 'u' || s[5] == 'U') && (s[6] == 'i' || s[6] == 'I')
    &&& (s[7] == 'd' || s[7] == 'D')
    &&& s[8] == ':'
}

/// Whether the uuid crate's `Uuid::parse_str` reads a text as a UUID: the
/// simple form, the hyphenated form, the hyphenated form in braces, or the
/// hyphenated form after `urn:uuid:` (any case).
pub open spec fn uuid_text(s: Seq<char>) -> bool {
    ||| uuid_simple(s)
    ||| uuid_hyphenated(s)
    ||| (s.len() == 38 && s[0] == '{' && s[37] == '}' && uuid_hyphenated(s.subrange(1, 37)))
    ||| (s.len() == 45 && urn_prefix(s) && uuid_hyphenated(s.subrange(9, 45)))
}

/// `uuid::Uuid::parse_str(s).is_ok()`.  Claimed: the text is accepted
/// exactly when it has one of the forms of [`uuid_text`] (uuid 1.29's
/// `parser.rs`: lengths 32, 36, 38 and 45 of bytes, hexadecimal digits of
/// either case, hyphens at fixed places; every accepted byte is ASCII, so
/// the byte lengths are the character counts).
#[verifier::external_body]
fn parses_as_uuid(s: &str) -> (r: bool)
    ensures
        r == uuid_text(s@),
{
    uuid::Uuid::parse_str(s).is_ok()
}

/// Whether an upload names its target node by a UUID (an upload whose
/// node is no UUID is refused with "Invalid UUID").
pub fn upload_node_is_uuid(u: &StreamUpload) -> (r: bool)
    ensures
        r == uuid_text(u.node_id@),
{
    parses_as_uuid(u.node_id.as_str())
}

} // verus!

verus! {

// ---------------------------------------------------------------------------
// The one-shot LAN file server
// ---------------------------------------------------------------------------

/// The first offset of a `Range: bytes=N-` header line: the text between
/// the first `=` and the next `-`, trimmed, as a number; 0 otherwise.
pub open spec fn range_start_of(request: Seq<char>) -> u64 {
    match first_header(lines(request), "range:"@) {
        Some(l) => {
            let parts = split_on(l, '=');
            if parts.len() > 1 {
                u64_or_zero(trim(split_on(parts[1], '-')[0]))
            } else {
                0
            }
        },
        None => 0,
    }
}

/// Where a download resumes, from the request text: see [`range_start_of`].
pub fn range_start(request: &str) -> (r: u64)
    ensures
        r == range_start_of(request@),
{
    let v = chars_of(request);
    let ls = split_lines(&v);
    match first_header_exec(&ls, "range:") {
        Some(i) => {
            let parts = split_char(&ls[i], '=');
            if parts.len() > 1 {
                proof {
                    crate::procfs::lemma_views_index_pub(parts@, 1);
                }
                let pieces = split_char(&parts[1], '-');
                proof {
                    crate::procfs::lemma_views_index_pub(pieces@, 0);
                }
                let t = trim_chars(&pieces[0]);
                assert(t@.subrange(0, t.len() as int) == t@);
                match parse_unsigned_range(&t, 0, t.len(), 10, u64::MAX) {
                    Some(n) => n,
                    None => 0,
                }
            } else {
                0
            }
        },
        None => 0,
    }
}

/// The response head of the file server: `206 Partial Content` with the
/// served range when resuming from `start_offset > 0`, else `200 OK`.
pub open spec fn serve_head_text(filename: Seq<char>, file_size: u64, start_offset: u64, checksum: Seq<char>) -> Seq<char> {
    if start_offset > 0 {
        "HTTP/1.1 206 Partial Content\r\nContent-Type: application/octet-stream\r\nContent-Disposition: attachment; filename=\""@
            + filename + "\"\r\nContent-Range: bytes "@ + decimal(start_offset as nat) + "-"@
            + decimal((file_size - 1) as nat) + "/"@ + decimal(file_size as nat) + "\r\nContent-Length: "@
            + decimal((file_size - start_offset) as nat) + "\r\nX-File-Checksum: "@ + checksum
            + "\r\nConnection: close\r\n\r\n"@
    } else {
        "HTTP/1.1 200 OK\r\nContent-Type: application/octet-stream\r\nContent-Disposition: attachment; filename=\""@
            + filename + "\"\r\nAccept-Ranges: bytes\r\nContent-Length: "@ + decimal(file_size as nat)
            + "\r\nX-File-Checksum: "@ + checksum + "\r\nConnection: close\r\n\r\n"@
    }
}

/// The response head for serving `file_size` bytes of `filename` from
/// `start_offset` on (an offset past the end of the file is no request the
/// server can answer).
pub fn serve_head(filename: &str, file_size: u64, start_offset: u64, checksum: &str) -> (r: String)
    requires
        start_offset <= file_size,
    ensures
        r@ == serve_head_text(filename@, file_size, start_offset, checksum@),
{
    let mut out: Vec<char> = Vec::new();
    if start_offset > 0 {
        push_str(&mut out, "HTTP/1.1 206 Partial Content\r\nContent-Type: application/octet-stream\r\nContent-Disposition: attachment; filename=\"");
        push_str(&mut out, filename);
        push_str(&mut out, "\"\r\nContent-Range: bytes ");
        push_decimal(&mut out, start_offset);
        push_str(&mut out, "-");
        push_decimal(&mut out, file_size - 1);
        push_str(&mut out, "/");
        push_decimal(&mut out, file_size);
        push_str(&mut out, "\r\nContent-Length: ");
        push_decimal(&mut out, file_size - start_offset);
        push_str(&mut out, "\r\nX-File-Checksum: ");
        push_str(&mut out, checksum);
        push_str(&mut out, "\r\nConnection: close\r\n\r\n");
    } else {
        push_str(&mut out, "HTTP/1.1 200 OK\r\nContent-Type: application/octet-stream\r\nContent-Disposition: attachment; filename=\"");
        push_str(&mut out, filename);
        push_str(&mut out, "\"\r\nAccept-Ranges: bytes\r\nContent-Length: ");
        push_decimal(&mut out, file_size);
        push_str(&mut out, "\r\nX-File-Checksum: ");
        push_str(&mut out, checksum);
        push_str(&mut out, "\r\nConnection: close\r\n\r\n");
    }
    string_of(&out)
}

/// The progress status of a served file.
pub fn serve_status(sent: u64, file_size: u64) -> (s: &'static str)
    ensures
        s@ == if sent == file_size { "completed"@ } else { "in_progress"@ },
{
    if sent == file_size { "completed" } else { "in_progress" }
}

/// The address the device fetches an upload from.
pub fn lan_download_url(ip: &str, port: u16, filename: &str) -> (r: String)
    ensures
        r@ == "https://"@ + ip@ + ":"@ + decimal(port as nat) + "/"@ + filename@,
{
    let mut out: Vec<char> = Vec::new();
    push_str(&mut out, "https://");
    push_str(&mut out, ip);
    push_str(&mut out, ":");
    push_decimal(&mut out, port as u64);
    push_str(&mut out, "/");
    push_str(&mut out, filename);
    string_of(&out)
}

/// The notification that tells a device to fetch an upload.
pub fn download_signal(url: &str, filename: &str, size: u64, fingerprint: &str) -> (r: String)
    ensures
        r@ == "PDOS_DOWNLOAD::{\"url\":\""@ + url@ + "\",\"filename\":\""@ + filename@ + "\",\"size\":"@
            + decimal(size as nat) + ",\"fingerprint\":\""@ + fingerprint@ + "\"}"@,
{
    let mut out: Vec<char> = Vec::new();
    push_str(&mut out, "PDOS_DOWNLOAD::{\"url\":\"");
    push_str(&mut out, url);
    push_str(&mut out, "\",\"filename\":\"");
    push_str(&mut out, filename);
    push_str(&mut out, "\",\"size\":");
    push_decimal(&mut out, size);
    push_str(&mut out, ",\"fingerprint\":\"");
    push_str(&mut out, fingerprint);
    push_str(&mut out, "\"}");
    string_of(&out)
}

} // verus!

verus! {

// ---------------------------------------------------------------------------
// Files pushed to this node (`POST /api/receive-file`)
// ---------------------------------------------------------------------------

/// The value of a header line as a number: the text between its first and
/// second `:`, trimmed, when that is one.
pub open spec fn header_number(l: Seq<char>) -> Option<u64> {
    let parts = split_on(l, ':');
    if parts.len() > 1 {
        match parse_unsigned(trim(parts[1]), 10, u64::MAX as int) {
            Some(n) => Some(n as u64),
            None => None,
        }
    } else {
        None
    }
}

/// The callback address of `X-Report-Progress-To`: everything after the
/// first `:` of the line, trimmed, unless empty.
pub open spec fn callback_of(l: Seq<char>) -> Option<Seq<char>> {
    let j = crate::text::find_from(l, ':', 0);
    if j < l.len() {
        let v = trim(l.subrange(j + 1, l.len() as int));
        if v.len() == 0 { None } else { Some(v) }
    } else {
        None
    }
}

/// What the headers of a pushed file ask for.
pub struct ReceiveHeaders {
    /// Where to report progress to.
    pub progress_url: Option<String>,
    /// Where in the file this part starts.
    pub offset: u64,
    /// The size of the whole file, when announced.
    pub total_size: Option<u64>,
    /// The name to store the file under.
    pub filename: String,
}

/// The progress callback named by a header block.
pub open spec fn receive_callback(ls: Seq<Seq<char>>) -> Option<Seq<char>> {
    match first_header(ls, "x-report-progress-to:"@) {
        Some(l) => callback_of(l),
        None => None,
    }
}

/// A numeric header of a header block (`None` when missing or no number).
pub open spec fn numeric_header(ls: Seq<Seq<char>>, name: Seq<char>) -> Option<u64> {
    match first_header(ls, name) {
        Some(l) => header_number(l),
        None => None,
    }
}

/// The file name of a header block: the text between the first and second
/// `:` of the `X-Filename` line, trimmed and made safe (see
/// [`stored_name`]); a time-stamped name without one.
pub open spec fn receive_filename(ls: Seq<Seq<char>>, timestamp: u64) -> Seq<char> {
    match first_header(ls, "x-filename:"@) {
        Some(l) => {
            let parts = split_on(l, ':');
            if parts.len() > 1 { stored_name(trim(parts[1]), timestamp) } else { received_name(timestamp) }
        },
        None => received_name(timestamp),
    }
}

fn numeric_header_exec(ls: &Vec<Vec<char>>, name: &str) -> (r: Option<u64>)
    ensures
        r == numeric_header(views(ls@), name@),
{
    match first_header_exec(ls, name) {
        Some(i) => {
            let parts = split_char(&ls[i], ':');
            if parts.len() > 1 {
                proof {
                    crate::procfs::lemma_views_index_pub(parts@, 1);
                }
                let t = trim_chars(&parts[1]);
                assert(t@.subrange(0, t.len() as int) == t@);
                parse_unsigned_range(&t, 0, t.len(), 10, u64::MAX)
            } else {
                None
            }
        },
        None => None,
    }
}

/// Read the headers of a pushed file received at time `timestamp`.
pub fn receive_headers(all_headers: &str, timestamp: u64) -> (r: ReceiveHeaders)
    ensures
        ({
            let ls = lines(all_headers@);
            &&& match r.progress_url {
                Some(u) => receive_callback(ls) == Some(u@),
                None => receive_callback(ls) is None,
            }
            &&& r.offset == match numeric_header(ls, "x-offset:"@) {
                Some(n) => n,
                None => 0,
            }
            &&& r.total_size == numeric_header(ls, "x-total-size:"@)
            &&& r.filename@ == receive_filename(ls, timestamp)
        }),
        safe_file_name(r.filename@),
{
    let v = chars_of(all_headers);
    let ls = split_lines(&v);
    let progress_url = match first_header_exec(&ls, "x-report-progress-to:") {
        Some(i) => {
            let l = &ls[i];
            let j = crate::text::find_char_from(l, ':', 0);
            proof {
                crate::text::lemma_find_from(l@, ':', 0);
            }
            if j < l.len() {
                let rest = slice_chars(l, j + 1, l.len());
                let t = trim_chars(&rest);
                if t.len() == 0 { None } else { Some(string_of(&t)) }
            } else {
                None
            }
        },
        None => None,
    };
    let offset = match numeric_header_exec(&ls, "x-offset:") {
        Some(n) => n,
        None => 0,
    };
    let total_size = numeric_header_exec(&ls, "x-total-size:");
    let filename = match first_header_exec(&ls, "x-filename:") {
        Some(i) => {
            let parts = split_char(&ls[i], ':');
            if parts.len() > 1 {
                proof {
                    crate::procfs::lemma_views_index_pub(parts@, 1);
                }
                safe_stored_name(&trim_chars(&parts[1]), timestamp)
            } else {
                proof {
                    lemma_received_name_safe(timestamp);
                }
                received_name_exec(timestamp)
            }
        },
        None => {
            proof {
                lemma_received_name_safe(timestamp);
            }
            received_name_exec(timestamp)
        },
    };
    ReceiveHeaders { progress_url, offset, total_size, filename }
}

/// Whether `s` ends with `p`.
pub open spec fn ends_with(s: Seq<char>, p: Seq<char>) -> bool {
    p.len() <= s.len() && s.subrange(s.len() - p.len(), s.len() as int) == p
}

/// `s` without every trailing `.zip`.
pub open spec fn without_zip_suffixes(s: Seq<char>) -> Seq<char>
    decreases s.len(),
{
    if ends_with(s, ".zip"@) && s.len() >= 4 {
        without_zip_suffixes(s.subrange(0, s.len() - 4))
    } else {
        s
    }
}

fn ends_with_exec(v: &Vec<char>, p: &str) -> (r: bool)
    ensures
        r == ends_with(v@, p@),
{
    let pv = chars_of(p);
    if pv.len() > v.len() {
        return false;
    }
    let r = crate::text::matches_at(v, &pv, v.len() - pv.len());
    r
}

/// The directory a received archive is unpacked into: its path without the
/// trailing `.zip`s, when the name or the path ends with `.zip`.
pub fn zip_extract_dir(filename: &str, path: &str) -> (r: Option<String>)
    ensures
        match r {
            Some(d) => (ends_with(filename@, ".zip"@) || ends_with(path@, ".zip"@)) && d@ == without_zip_suffixes(path@),
            None => !(ends_with(filename@, ".zip"@) || ends_with(path@, ".zip"@)),
        },
{
    let f = chars_of(filename);
    let p = chars_of(path);
    if !(ends_with_exec(&f, ".zip") || ends_with_exec(&p, ".zip")) {
        return None;
    }
    proof {
        reveal_strlit(".zip");
    }
    let mut n = p.len();
    assert(p@.subrange(0, n as int) == p@);
    while n >= 4 && crate::text::matches_at(&p, &chars_of(".zip"), n - 4)
        invariant
            n <= p.len(),
            ".zip"@.len() == 4,
            without_zip_suffixes(p@.subrange(0, n as int)) == without_zip_suffixes(p@),
        decreases n,
    {
        let ghost s = p@.subrange(0, n as int);
        assert(s.subrange(s.len() - 4, s.len() as int) == p@.subrange(n - 4, n as int));
        assert(s.subrange(0, s.len() - 4) == p@.subrange(0, n - 4));
        n = n - 4;
    }
    let ghost s = p@.subrange(0, n as int);
    assert(n >= 4 ==> s.subrange(s.len() - 4, s.len() as int) == p@.subrange(n - 4, n as int));
    Some(string_of(&slice_chars(&p, 0, n)))
}

} // verus!

verus! {

// ---------------------------------------------------------------------------
// JSON control requests
// ---------------------------------------------------------------------------

/// A shell command split into the program and its arguments.
pub fn split_command(command: &str) -> (r: Option<(String, Vec<String>)>)
    ensures
        crate::text::tokens(command@).len() == 0 <==> r is None,
        r matches Some((c, args)) ==> {
            &&& c@ == crate::text::tokens(command@)[0]
            &&& args@.map_values(|s: String| s@) == crate::text::tokens(command@).drop_first()
        },
{
    let v = chars_of(command);
    let t = crate::text::split_tokens(&v);
    if t.len() == 0 {
        return None;
    }
    proof {
        crate::procfs::lemma_views_index_pub(t@, 0);
    }
    let cmd = string_of(&t[0]);
    let mut args: Vec<String> = Vec::new();
    let mut i: usize = 1;
    while i < t.len()
        invariant
            1 <= i <= t.len(),
            views(t@) == crate::text::tokens(v@),
            v@ == command@,
            args@.map_values(|s: String| s@) == views(t@).subrange(1, i as int),
        decreases t.len() - i,
    {
        proof {
            crate::procfs::lemma_views_index_pub(t@, i as int);
        }
        let ghost before = args@;
        args.push(string_of(&t[i]));
        assert(args@.map_values(|s: String| s@) =~= before.map_values(|s: String| s@).push(t@[i as int]@));
        assert(views(t@).subrange(1, i + 1) =~= views(t@).subrange(1, i as int).push(views(t@)[i as int]));
        i = i + 1;
    }
    assert(views(t@).subrange(1, t.len() as int) =~= views(t@).drop_first());
    Some((cmd, args))
}

/// Where an uploaded file goes on the device: the given path, or the
/// device's download folder when none is given.
pub fn upload_remote_path(filename: &str, remote_path: &str) -> (r: String)
    ensures
        r@ == if remote_path@.len() == 0 { "/sdcard/Download/"@ + filename@ } else { remote_path@ },
{
    if remote_path.unicode_len() == 0 {
        let mut out: Vec<char> = Vec::new();
        push_str(&mut out, "/sdcard/Download/");
        push_str(&mut out, filename);
        string_of(&out)
    } else {
        String::from_str(remote_path)
    }
}

/// The port of a request: the given number cut to 16 bits, 8080 by default.
pub open spec fn request_port(port: Option<u64>) -> u16 {
    match port {
        Some(p) => (p % 65536) as u16,
        None => 8080,
    }
}

fn request_port_exec(port: Option<u64>) -> (r: u16)
    ensures
        r == request_port(port),
{
    match port {
        Some(p) => (p % 65536) as u16,
        None => 8080,
    }
}

/// The text of an optional field, empty when absent.
pub open spec fn text_or_empty(s: Option<String>) -> Seq<char> {
    match s {
        Some(t) => t@,
        None => Seq::empty(),
    }
}

/// Why a device request was refused.
#[derive(Debug, Clone, Copy, PartialEq, Eq, Structural)]
pub enum DeviceRequestError {
    MissingHostOrLocalPath,
    MissingHostOrRemotePath,
}

impl DeviceRequestError {
    /// The JSON body of the refusal.
    pub fn message(&self) -> (s: &'static str)
        ensures
            s@ == match self {
                DeviceRequestError::MissingHostOrLocalPath => "{\"error\":\"missing host or local_path\"}"@,
                DeviceRequestError::MissingHostOrRemotePath => "{\"error\":\"missing host or remote_path\"}"@,
            },
    {
        match self {
            DeviceRequestError::MissingHostOrLocalPath => "{\"error\":\"missing host or local_path\"}",
            DeviceRequestError::MissingHostOrRemotePath => "{\"error\":\"missing host or remote_path\"}",
        }
    }
}

/// A request to send a local file to a device.
pub struct SendToDevice {
    pub host: String,
    pub port: u16,
    pub local_path: String,
    pub filename: Option<String>,
}

fn text_or_empty_exec(s: Option<String>) -> (r: String)
    ensures
        r@ == text_or_empty(s),
{
    match s {
        Some(t) => t,
        None => String::new(),
    }
}

/// Check a send request from its JSON fields: host and local path must be
/// given and non-empty.
pub fn send_to_device_request(
    host: Option<String>,
    port: Option<u64>,
    local_path: Option<String>,
    filename: Option<String>,
) -> (r: Result<SendToDevice, DeviceRequestError>)
    ensures
        (text_or_empty(host).len() == 0 || text_or_empty(local_path).len() == 0) <==> r is Err,
        r matches Err(e) ==> e == DeviceRequestError::MissingHostOrLocalPath,
        r matches Ok(s) ==> {
            &&& s.host@ == text_or_empty(host)
            &&& s.port == request_port(port)
            &&& s.local_path@ == text_or_empty(local_path)
            &&& s.filename == filename
        },
{
    let h = text_or_empty_exec(host);
    let l = text_or_empty_exec(local_path);
    if h.unicode_len() == 0 || l.unicode_len() == 0 {
        return Err(DeviceRequestError::MissingHostOrLocalPath);
    }
    Ok(SendToDevice { host: h, port: request_port_exec(port), local_path: l, filename })
}

/// The last component of a path, as `Path::file_name` computes it with Unix
/// path syntax (none for a path that ends in `..` or is a root).
pub uninterp spec fn path_file_name(path: Seq<char>) -> Option<Seq<char>>;

/// `std::path::Path::new(path).file_name()`, converted to a `String`.
#[verifier::external_body]
fn file_name_of(path: &str) -> (r: Option<String>)
    ensures
        match r {
            Some(n) => path_file_name(path@) == Some(n@),
            None => path_file_name(path@) is None,
        },
{
    std::path::Path::new(path).file_name().and_then(|n| n.to_str()).map(|n| n.to_string())
}

/// The name a local file is pushed under when none is given: the last
/// component of its path, or `file` when it has none.
pub open spec fn push_name(local_path: Seq<char>) -> Seq<char> {
    match path_file_name(local_path) {
        Some(n) => n,
        None => "file"@,
    }
}

/// The name a local file is pushed under when none is given.
pub fn local_file_name(local_path: &str) -> (r: String)
    ensures
        r@ == push_name(local_path@),
{
    match file_name_of(local_path) {
        Some(n) => n,
        None => String::from_str("file"),
    }
}

/// A request to fetch a file from a device into a local folder.
pub struct DeviceDownload {
    pub host: String,
    pub port: u16,
    pub remote_path: String,
    /// The local folder, with `~/` expanded.
    pub local_dir: String,
    /// The local name: the last component of the remote path.
    pub filename: String,
    pub output_path: String,
}

/// The local folder of a download request (`~/Downloads/PDOS` by default).
pub open spec fn download_dir(local_dir: Option<String>, home: Seq<char>) -> Seq<char> {
    home_expanded(
        match local_dir {
            Some(d) => d@,
            None => "~/Downloads/PDOS"@,
        },
        home,
    )
}

/// The local name of a downloaded file (`downloaded.bin` when the remote
/// path has no last component).
pub open spec fn download_name(remote_path: Seq<char>) -> Seq<char> {
    match path_file_name(remote_path) {
        Some(n) => n,
        None => "downloaded.bin"@,
    }
}

/// Check a download request from its JSON fields: host and remote path must
/// be given and non-empty.
pub fn download_from_device_request(
    host: Option<String>,
    port: Option<u64>,
    remote_path: Option<String>,
    local_dir: Option<String>,
    home: &str,
) -> (r: Result<DeviceDownload, DeviceRequestError>)
    ensures
        (text_or_empty(host).len() == 0 || text_or_empty(remote_path).len() == 0) <==> r is Err,
        r matches Err(e) ==> e == DeviceRequestError::MissingHostOrRemotePath,
        r matches Ok(d) ==> {
            &&& d.host@ == text_or_empty(host)
            &&& d.port == request_port(port)
            &&& d.remote_path@ == text_or_empty(remote_path)
            &&& d.local_dir@ == download_dir(local_dir, home@)
            &&& d.filename@ == download_name(text_or_empty(remote_path))
            &&& d.output_path@ == download_dir(local_dir, home@) + "/"@ + download_name(text_or_empty(remote_path))
        },
{
    let h = text_or_empty_exec(host);
    let rp = text_or_empty_exec(remote_path);
    if h.unicode_len() == 0 || rp.unicode_len() == 0 {
        return Err(DeviceRequestError::MissingHostOrRemotePath);
    }
    let dir_text = match local_dir {
        Some(d) => d,
        None => String::from_str("~/Downloads/PDOS"),
    };
    let dir = expand_home(dir_text.as_str(), home);
    let name = match file_name_of(rp.as_str()) {
        Some(n) => n,
        None => String::from_str("downloaded.bin"),
    };
    let out = join_path(dir.as_str(), name.as_str());
    Ok(DeviceDownload {
        host: h,
        port: request_port_exec(port),
        remote_path: rp,
        local_dir: dir,
        filename: name,
        output_path: out,
    })
}

} // verus!

verus! {

// ---------------------------------------------------------------------------
// The Control Hub page
// ---------------------------------------------------------------------------

/// The Control Hub page, part 1 of 6.
pub const PAGE_PART_1: &'static str = r#"<!DOCTYPE html>
<html lang="en">
<head>
    <meta charset="UTF-8">
    <meta name="viewport" content="width=device-width, initial-scale=1.0, maximum-scale=1.0, user-scalable=no">
    <title>PDOS / HUB</title>
    <link href="https://fonts.googleapis.com/css2?family=Space+Mono:ital,wght@0,400;0,700;1,400&family=Inter:wght@400;500;600&display=swap" rel="stylesheet">
    <style>
        :root {
            --bg: #000000;
            --fg: #ffffff;
            --muted: #666666;
            --border: #333333;
            --hover-bg: #ffffff;
            --hover-fg: #000000;
        }

        * {
            box-sizing: border-box;
            margin: 0;
            padding: 0;
            -webkit-font-smoothing: antialiased;
        }

        body {
            font-family: "Space Mono", monospace;
            background-color: var(--bg);
            color: var(--fg);
            min-height: 100vh;
            display: flex;
            flex-direction: column;
            align-items: center;
            overflow-x: hidden;
            text-transform: uppercase;
        }

        /* Top Navigation */
        nav {
            width: 100%;
            padding: 24px 40px;
            display: flex;
            justify-content: space-between;
            align-items: center;
            border-bottom: 1px solid var(--border);
            z-index: 10;
        }

        .brand {
            font-size: 1.2rem;
            font-weight: 700;
            letter-spacing: 2px;
            display: flex;
            align-items: center;
            gap: 12px;
        }

        .version {
            font-size: 0.8rem;
            color: var(--muted);
            border: 1px solid var(--border);
            padding: 4px 12px;
        }

        /* Main Container */
        .container {
            width: 100%;
            max-width: 900px;
            margin-top: 40px;
            padding: 0 20px;
            display: flex;
            flex-direction: column;
            align-items: center;
            gap: 40px;
        }

        h1 {
            font-weight: 400;
            font-size: 2rem;
            letter-spacing: 4px;
            text-align: center;
        }

        .subtitle {
            color: var(--muted);
            font-size: 0.9rem;
            text-align: center;
            margin-top: -20px;
            letter-spacing: 1px;
        }

        /* Device Grid */
        .device-grid {
            display: flex;
            flex-wrap: wrap;
            justify-content: center;
            gap: 20px;
            width: 100%;
            min-height: 200px;
        }

        .device-card {
            display: flex;
            flex-direction: column;
            align-items: center;
            gap: 16px;
            cursor: pointer;
            padding: 24px;
            border: 1px solid var(--border);
            transition: all 0.2s ease;
            width: 100%;
            max-width: 200px;
        }

        .device-card:hover {
            background: var(--hover-bg);
            color: var(--hover-fg);
            border-color: var(--fg);
        }

        .device-card:hover .device-status {
            color: var(--hover-fg);
        }

        .device-icon {
            font-size: 32px;
            font-family: "Inter", sans-serif;
        }

        .device-name {
            font-size: 0.85rem;
            font-weight: 700;
            text-align: center;
            word-break: break-all;
        }
        
        .device-status {
            font-size: 0.75rem;
            color: var(--muted);
            display: flex;
            align-items: center;
            gap: 6px;
            transition: color 0.2s;
        }
        
        .status-dot {
            width: 6px;
            height: 6px;
            background: currentColor;
            border-radius: 50%;
        }

        /* Scan Button */
        .scan-btn {
            background: var(--bg);
            border: 1px solid var(--fg);
            color: var(--fg);
            padding: 16px 32px;
            font-size: 0.9rem;
            font-family: inherit;
            text-transform: uppercase;
            letter-spacing: 2px;
            cursor: pointer;
            transition: all 0.2s ease;
            width: 100%;
            max-width: 300px;
        }

        .scan-btn:hover {
            background: var(--fg);
            color: var(--bg);
        }

        /* Modal / Action Sheet */
        .modal-overlay {
            position: fixed;
            top: 0; left: 0; right: 0; bottom: 0;
            background: rgba(0,0,0,0.95);
            display: flex;
            justify-content: center;
            align-items: center;
            opacity: 0;
            pointer-events: none;
            transition: opacity 0.3s ease;
            z-index: 100;
            padding: 20px;
        }

        .modal-overlay.active {
            opacity: 1;
            pointer-events: auto;
        }

        .action-sheet {
            background: var(--bg);
            border: 1px solid var(--border);
            width: 100%;
            max-width: 600px;
            max-height: 90vh;
            overflow-y: auto;
            padding: 30px;
            display: flex;
            flex-direction: column;
            gap: 24px;
        }

        .sheet-header {
            display: flex;
            justify-content: space-between;
            align-items: flex-start;
            border-bottom: 1px solid var(--border);
            padding-bottom: 16px;
        }

        .sheet-header h2 {
            font-weight: 400;
            font-size: 1.1rem;
            letter-spacing: 2px;
        }

        .close-btn {
            background: none;
            border: none;
            color: var(--fg);
            font-family: inherit;
            font-size: 1rem;
            cursor: pointer;
            text-decoration: underline;
        }
        .close-btn:hover { color: var(--muted); }

        /* Action Grid */
        .action-grid {
            display: grid;
            grid-template-columns: 1fr 1fr;
            gap: 16px;
        }

        .action-btn {
            background: var(--bg);
            border: 1px solid var(--border);
            color: var(--fg);
            padding: 20px;
            cursor: pointer;
            transition: all 0.2s ease;
            display: flex;
            flex-direction: column;
            align-items: flex-start;
            gap: 12px;
            font-family: inherit;
            text-transform: uppercase;
        }

        .action-btn:hover {
            background: var(--fg);
            color: var(--bg);
            border-color: var(--fg);
        }

        .action-title {
            font-size: 0.9rem;
            font-weight: 700;
            letter-spacing: 0;
            text-align: left;
            text-transform: none;
        }

        .action-icon {
            font-size: 22px;
            text-transform: none;
        }

        .action-desc {
            font-size: 0.78rem;
            color: var(--muted);
            text-transform: none;
            font-family: "Inter", sans-serif;
            letter-spacing: 0;
            font-weight: 400;
            line-height: 1.4;
            text-align: left;
        }

        .action-btn:hover .action-desc {
            color: var(--bg);
            opacity: 0.7;
        }

        .view-desc {
            font-size: 0.88rem;
            color: var(--muted);
            text-transform: none;
            font-family: "Inter", sans-serif;
            letter-spacing: 0;
            line-height: 1.5;
            margin-bottom: -4px;
        }

        .drop-zone {
            border: 1px dashed var(--border);
            padding: 32px 20px;
"#;

/// The Control Hub page, part 2 of 6.
pub const PAGE_PART_2: &'static str = r#"            display: flex;
            justify-content: center;
            align-items: center;
            cursor: pointer;
            transition: all 0.2s ease;
            text-align: center;
        }
        .drop-zone:hover, .drop-zone.drag-over {
            border-color: var(--fg);
            background: rgba(255,255,255,0.03);
        }
        .drop-icon {
            font-size: 28px;
            display: block;
            margin-bottom: 8px;
            text-transform: none;
        }
        .drop-label {
            font-size: 0.9rem;
            font-weight: 600;
            color: var(--fg);
            text-transform: none;
            font-family: "Inter", sans-serif;
            letter-spacing: 0;
        }
        .drop-sub {
            font-size: 0.8rem;
            color: var(--muted);
            text-transform: none;
            font-family: "Inter", sans-serif;
            margin-top: 4px;
        }
        /* File Transfer Tabs */
        .file-tabs {
            display: flex;
            gap: 0;
            border: 1px solid var(--border);
        }
        .file-tab {
            flex: 1;
            background: none;
            border: none;
            border-right: 1px solid var(--border);
            color: var(--muted);
            padding: 12px 8px;
            cursor: pointer;
            font-family: "Inter", sans-serif;
            font-size: 0.82rem;
            font-weight: 600;
            text-transform: none;
            letter-spacing: 0;
            transition: all 0.15s;
        }
        .file-tab:last-child { border-right: none; }
        .file-tab.active { background: var(--fg); color: var(--bg); }
        .file-tab:hover:not(.active) { background: rgba(255,255,255,0.05); color: var(--fg); }
        .receive-list {
            min-height: 100px;
            max-height: 200px;
            overflow-y: auto;
            border: 1px solid var(--border);
            padding: 12px;
            display: flex;
            flex-direction: column;
            gap: 8px;
        }
        .receive-item {
            display: flex;
            align-items: center;
            justify-content: space-between;
            gap: 12px;
            padding: 8px 0;
            border-bottom: 1px solid var(--border);
            font-family: "Inter", sans-serif;
            font-size: 0.82rem;
            text-transform: none;
            color: var(--fg);
        }
        .receive-item:last-child { border-bottom: none; }
        .receive-item-name { font-weight: 600; }
        .receive-item-size { color: var(--muted); font-size: 0.75rem; }
        .btn-open { background: none; border: 1px solid var(--border); color: var(--fg); padding: 4px 10px; cursor: pointer; font-size: 0.75rem; font-family: "Inter", sans-serif; }

        .btn-primary:disabled {
            opacity: 0.3;
            cursor: not-allowed;
        }
        .btn-primary:disabled:hover {
            background: var(--fg);
            color: var(--bg);
        }

        /* Form Layouts within Modal */
        .sub-view {
            display: none;
            flex-direction: column;
            gap: 20px;
        }
        
        .sub-view.active { display: flex; }
        .main-view.hidden { display: none; }

        input, textarea {
            background: var(--bg);
            border: 1px solid var(--border);
            padding: 16px;
            color: var(--fg);
            font-family: inherit;
            font-size: 0.9rem;
            width: 100%;
            border-radius: 0;
        }

        input:focus, textarea:focus {
            outline: none;
            border-color: var(--fg);
        }

        .btn-primary {
            background: var(--fg);
            color: var(--bg);
            border: 1px solid var(--fg);
            padding: 16px;
            font-size: 0.9rem;
            font-family: inherit;
            text-transform: uppercase;
            letter-spacing: 2px;
            cursor: pointer;
            width: 100%;
            transition: all 0.2s;
        }
        .btn-primary:hover { 
            background: var(--bg);
            color: var(--fg);
        }

        .btn-secondary {
            background: var(--bg);
            color: var(--fg);
            border: 1px solid var(--border);
            padding: 16px;
            font-size: 0.9rem;
            font-family: inherit;
            text-transform: uppercase;
            letter-spacing: 2px;
            cursor: pointer;
            width: 100%;
            transition: all 0.2s;
        }
        .btn-secondary:hover {
            border-color: var(--fg);
        }
        
        .btn-group {
            display: flex;
            gap: 12px;
            width: 100%;
        }

        .back-btn {
            background: none;
            border: none;
            color: var(--muted);
            font-family: inherit;
            font-size: 0.85rem;
            text-transform: uppercase;
            letter-spacing: 1px;
            cursor: pointer;
            text-align: left;
            margin-bottom: -10px;
        }
        .back-btn:hover { color: var(--fg); }

        /* Toast Notification */
        .toast-container {
            position: fixed;
            bottom: 20px;
            left: 20px;
            right: 20px;
            display: flex;
            flex-direction: column;
            gap: 12px;
            z-index: 1000;
            pointer-events: none;
        }

        .toast {
            background: var(--fg);
            color: var(--bg);
            border: 1px solid var(--fg);
            padding: 16px;
            font-size: 0.85rem;
            letter-spacing: 1px;
            display: flex;
            align-items: center;
            gap: 12px;
            box-shadow: 0 10px 30px rgba(0,0,0,0.5);
            transition: opacity 0.3s;
        }

        .toast.error { 
            background: var(--bg);
            color: var(--fg);
            border-color: var(--fg);
        }

        .terminal-output {
            background: var(--bg);
            border: 1px solid var(--border);
            font-family: inherit;
            padding: 16px;
            font-size: 0.85rem;
            height: 150px;
            overflow-y: auto;
            color: var(--fg);
            white-space: pre-wrap;
            text-transform: none;
        }
        
        /* Activity Log */
        .log-panel {
            width: 100%;
            max-width: 900px;
            margin: 0 20px 40px 20px;
            border: 1px solid var(--border);
        }
        .log-header {
            padding: 12px 16px;
            font-size: 0.8rem;
            color: var(--muted);
            border-bottom: 1px solid var(--border);
            letter-spacing: 1px;
        }
        .activity-log {
            padding: 12px 16px;
            height: 130px;
            overflow-y: auto;
            display: flex;
            flex-direction: column;
            gap: 4px;
        }
        .log-entry {
            font-size: 0.82rem;
            color: var(--muted);
            font-family: "Inter", sans-serif;
            text-transform: none;
            letter-spacing: 0;
            line-height: 1.5;
        }
        .log-entry.log-success { color: var(--fg); }
        .log-entry.log-error { color: #aaaaaa; text-decoration: line-through; }
        .log-time {
            font-family: "Space Mono", monospace;
            font-size: 0.75rem;
            color: #444;
            margin-right: 8px;
        }

        /* Responsive Media Queries */
        @media (max-width: 600px) {
            nav {
                padding: 20px;
            }
            
            h1 {
                font-size: 1.5rem;
                letter-spacing: 2px;
            }
            
            .action-grid {
                grid-template-columns: 1fr;
            }
            
            .action-sheet {
                padding: 20px;
            }
            
            .btn-group {
                flex-direction: column;
            }
            
            .device-card {
                max-width: 100%;
            }
            
            .toast-container {
                bottom: 20px;
                left: 20px;
                right: 20px;
                align-items: center;
            }
            .toast {
                width: 100%;
                justify-content: center;
                text-align: center;
            }
        }
    </style>
</head>
<body>
"#;

/// The Control Hub page, part 3 of 6.
pub const PAGE_PART_3: &'static str = r#"
    <nav>
        <div class="brand">
            [ PDOS ]
        </div>
        <div style="display:flex;gap:16px;align-items:center;">
            <button class="nav-tab active" id="tabDevices" onclick="switchMainTab('devices')">Devices</button>
            <button class="nav-tab" id="tabObservability" onclick="switchMainTab('observability')">Observability</button>
            <div class="version">V0.3</div>
        </div>
    </nav>
    <style>
        .nav-tab {
            background: none;
            border: 1px solid var(--border);
            color: var(--muted);
            padding: 8px 16px;
            font-family: inherit;
            font-size: 0.78rem;
            cursor: pointer;
            letter-spacing: 1px;
            text-transform: uppercase;
            transition: all 0.2s;
        }
        .nav-tab:hover {
            border-color: var(--fg);
            color: var(--fg);
        }
        .nav-tab.active {
            background: var(--fg);
            color: var(--bg);
            border-color: var(--fg);
        }
    </style>

    <div id="pageDevices">
        <div class="container">
            <div>
                <h1>Nearby Devices</h1>
                <p class="subtitle">Tap a device to control it</p>
            </div>

            <div class="device-grid" id="deviceGrid">
                <!-- Populated via JS -->
            </div>
        </div>
    </div>

    <!-- ═══════════════════════════════════════════════════════════════ -->
    <!--  OBSERVABILITY PAGE                                           -->
    <!-- ═══════════════════════════════════════════════════════════════ -->
    <div id="pageObservability" style="display:none;">
    <div class="container" style="max-width:1100px;">

        <!-- ── Health Score ── -->
        <div class="obs-section">
            <div class="obs-section-header">System Health</div>
            <div class="obs-grid" style="grid-template-columns: 1fr 2fr;">
                <div class="obs-card">
                    <div id="overallHealthScore" class="health-score-large">--</div>
                    <div class="health-score-label">Overall Health</div>
                </div>
                <div class="obs-card">
                    <div class="health-bars">
                        <div class="health-bar-row"><span>CPU</span><div class="health-bar-track"><div id="healthCpu" class="health-bar-fill" style="width:0%"></div></div><span id="healthCpuLabel">0</span></div>
                        <div class="health-bar-row"><span>Network</span><div class="health-bar-track"><div id="healthNetwork" class="health-bar-fill" style="width:0%"></div></div><span id="healthNetworkLabel">0</span></div>
                        <div class="health-bar-row"><span>Disk</span><div class="health-bar-track"><div id="healthDisk" class="health-bar-fill" style="width:0%"></div></div><span id="healthDiskLabel">0</span></div>
                        <div class="health-bar-row"><span>Integrity</span><div class="health-bar-track"><div id="healthIntegrity" class="health-bar-fill" style="width:0%"></div></div><span id="healthIntegrityLabel">0</span></div>
                        <div class="health-bar-row"><span>Recovery</span><div class="health-bar-track"><div id="healthRecovery" class="health-bar-fill" style="width:0%"></div></div><span id="healthRecoveryLabel">0</span></div>
                    </div>
                </div>
            </div>
        </div>
        <style>
            .health-score-large { font-size:3.5rem; font-weight:700; text-align:center; letter-spacing:0; }
            .health-score-label { text-align:center; color:var(--muted); font-size:0.8rem; margin-top:4px; }
            .health-bars { display:flex; flex-direction:column; gap:10px; }
            .health-bar-row { display:flex; align-items:center; gap:10px; font-family:"Inter",sans-serif; font-size:0.82rem; text-transform:none; }
            .health-bar-track { flex:1; height:8px; background:#222; border-radius:4px; overflow:hidden; }
            .health-bar-fill { height:100%; background:var(--fg); border-radius:4px; transition:width 0.5s ease; }
        </style>

        <!-- ── Current Metrics ── -->
        <div class="obs-section">
            <div class="obs-section-header">Live Metrics</div>
            <div class="obs-grid" style="grid-template-columns: repeat(auto-fit, minmax(200px, 1fr));">
                <div class="metric-card"><div class="metric-label">CPU</div><div id="liveCpu" class="metric-value">--</div></div>
                <div class="metric-card"><div class="metric-label">Memory</div><div id="liveMemory" class="metric-value">--</div></div>
                <div class="metric-card"><div class="metric-label">TX</div><div id="liveTx" class="metric-value">--</div></div>
                <div class="metric-card"><div class="metric-label">RX</div><div id="liveRx" class="metric-value">--</div></div>
                <div class="metric-card"><div class="metric-label">CPU Temp</div><div id="liveCpuTemp" class="metric-value">--</div></div>
                <div class="metric-card"><div class="metric-label">Fan</div><div id="liveFan" class="metric-value">--</div></div>
                <div class="metric-card"><div class="metric-label">Battery</div><div id="liveBattery" class="metric-value">--</div></div>
                <div class="metric-card"><div class="metric-label">Thermal State</div><div id="liveThermal" class="metric-value">--</div></div>
            </div>
        </div>

        <!-- ── Process-Level Metrics ── -->
        <div class="obs-section">
            <div class="obs-section-header">Process-Level Monitoring</div>
            <div class="obs-grid" style="grid-template-columns: repeat(auto-fit, minmax(180px, 1fr));">
                <div class="metric-card"><div class="metric-label">Rust Daemon CPU</div><div id="procRustCpu" class="metric-value">--</div></div>
                <div class="metric-card"><div class="metric-label">Rust Daemon RAM</div><div id="procRustRam" class="metric-value">--</div></div>
                <div class="metric-card"><div class="metric-label">Hash Thread CPU</div><div id="procHashCpu" class="metric-value">--</div></div>
                <div class="metric-card"><div class="metric-label">Hash Thread RAM</div><div id="procHashRam" class="metric-value">--</div></div>
            </div>
        </div>

        <!-- ── Transfer History ── -->
        <div class="obs-section">
            <div class="obs-section-header">Transfer History</div>
            <div id="transferHistoryList"></div>
        </div>

        <!-- ── Transfer Detail Report ── -->
        <div id="transferDetail" style="display:none;">
            <button class="back-btn" onclick="document.getElementById('transferDetail').style.display='none';">&#8592; Back to History</button>
            <div class="obs-section">
                <div class="obs-section-header" id="detailTitle">Transfer Report</div>
                <div id="transferReportContent"></div>
            </div>
        </div>

        <!-- ── Waterfall Timeline ── -->
        <div id="waterfallContainer" style="display:none;">
            <div class="obs-section">
                <div class="obs-section-header">Transfer Waterfall</div>
                <div id="waterfallContent"></div>
            </div>
        </div>

        <!-- ─── Protocol Statistics ── -->
        <div class="obs-section">
            <div class="obs-section-header">Protocol Statistics</div>
            <div class="obs-grid" id="protocolStatsGrid" style="grid-template-columns: repeat(auto-fit, minmax(150px, 1fr));"></div>
        </div>

        <!-- ── Compression Analytics ── -->
        <div class="obs-section">
            <div class="obs-section-header">Compression Analytics</div>
            <div id="compressionAnalyticsList"></div>
        </div>

        <!-- ── Storage Forecast ── -->
        <div class="obs-section">
            <div class="obs-section-header">Storage Forecast</div>
            <div id="storageForecastContent"></div>
        </div>

        <!-- ── Network Path Analyzer ── -->
        <div class="obs-section">
            <div class="obs-section-header">Network Path</div>
            <div id="networkPathContent"></div>
        </div>

        <!-- ── Bottleneck Detection ── -->
        <div class="obs-section">
            <div class="obs-section-header">Bottleneck Detection</div>
            <div id="bottleneckContent"></div>
        </div>

        <!-- ── Buffer Analysis ── -->
        <div class="obs-section">
            <div class="obs-section-header">Buffer Analysis</div>
            <div id="bufferAnalysisContent"></div>
        </div>

    </div>
    </div>

    <style>
        .obs-section { width:100%; margin-bottom:20px; }
        .obs-section-header { font-size:0.85rem; color:var(--muted); letter-spacing:1px; margin-bottom:12px; border-bottom:1px solid var(--border); padding-bottom:8px; }
        .obs-grid { display:grid; gap:12px; }
        .obs-card { border:1px solid var(--border); padding:20px; }
        .metric-card { border:1px solid var(--border); padding:16px; text-align:center; }
        .metric-label { font-size:0.72rem; color:var(--muted); letter-spacing:1px; margin-bottom:6px; }
        .metric-value { font-size:1.3rem; font-weight:700; letter-spacing:0; }
        .hist-item { border:1px solid var(--border); padding:12px; margin-bottom:8px; font-family:"Inter",sans-serif; text-transform:none; font-size:0.85rem; cursor:pointer; transition:all 0.15s; }
        .hist-item:hover { background:rgba(255,255,255,0.03); border-color:var(--fg); }
        .hist-item-header { display:flex; justify-content:space-between; align-items:center; }
        .hist-item-header .name { font-weight:600; color:var(--fg); }
        .hist-item-header .status { font-size:0.75rem; }
        .hist-item-details { display:flex; gap:16px; margin-top:6px; color:var(--muted); font-size:0.78rem; }
        .badge { display:inline-block; padding:2px 8px; font-size:0.7rem; font-family:"Space Mono",monospace; border:1px solid var(--border); }
        .badge.ok { border-color:#4CAF50; color:#4CAF50; }
        .badge.warn { border-color:#FF9800; color:#FF9800; }
        .badge.err { border-color:#f44336; color:#f44336; }
        .waterfall-bar { display:flex; align-items:center; gap:8px; margin-bottom:4px; font-family:"Inter",sans-serif; font-size:0.8rem; text-transform:none; }
        .waterfall-bar .label { width:90px; text-align:right; color:var(--muted); }
        .waterfall-bar .track { flex:1; height:20px; background:#111; position:relative; border-radius:3px; overflow:hidden; }
        .waterfall-bar .fill { height:100%; background:var(--fg); border-radius:3px; transition:width 0.3s; }
        .waterfall-bar .time { width:70px; color:var(--muted); font-size:0.72rem; }
        .phase-compression .fill { background:#FF9800; }
        .phase-authentication .fill { background:#2196F3; }
        .phase-discovery .fill { background:#9C27B0; }
        .phase-tls .fill { background:#4CAF50; }
        .phase-streaming .fill { background:var(--fg); }
        .phase-hash .fill { background:#607D8B; }
        .phase-archive .fill { background:#795548; }

        .report-section { margin-bottom:20px; }
        .report-section h4 { font-size:0.8rem; color:var(--muted); letter-spacing:1px; margin-bottom:8px; border-bottom:1px solid var(--border); padding-bottom:4px; }
        .report-grid { display:grid; grid-template-columns:1fr 1fr; gap:6px; font-family:"Inter",sans-serif; font-size:0.82rem; text-transform:none; }
        .report-grid .key { color:var(--muted); }
        .report-grid .val { text-align:right; color:var(--fg); font-weight:500; }

        .proto-stat { border:1px solid var(--border); padding:12px; text-align:center; }
        .proto-stat .num { font-size:1.5rem; font-weight:700; }
        .proto-stat .label { font-size:0.7rem; color:var(--muted); margin-top:4px; }
    </style>

    <!-- Action Sheet Modal -->
    <div class="modal-overlay" id="actionModal" onclick="closeModal(event)">
        <div class="action-sheet" onclick="event.stopPropagation()">
            
            <!-- Main Grid View -->
            <div id="viewMain" class="main-view">
                <div class="sheet-header">
                    <div>
                        <h2 id="modalDeviceName">Device</h2>
                        <span id="modalDeviceId" style="font-size: 0.75rem; color: var(--muted);">Connected</span>
                    </div>
                    <button class="close-btn" onclick="closeModal(true)">Done</button>
                </div>

                <div class="action-grid">
                    <button class="action-btn" onclick="openSubView('viewNotify')">
                        <span class="action-icon">&#128276;</span>
                        <span class="action-title">Send Alert</span>
                        <span class="action-desc">Pop a notification on this device</span>
                    </button>
                    <button class="action-btn" onclick="openSubView('viewClipboard')">
                        <span class="action-icon">&#128203;</span>
                        <span class="action-title">Clipboard</span>
                        <span class="action-desc">Share copied text between devices</span>
                    </button>
                    <button class="action-btn" onclick="openSubView('viewTerminal')">
                        <span class="action-icon">&#9881;&#65039;</span>
                        <span class="action-title">Run Command</span>
                        <span class="action-desc">Execute a shell command remotely</span>
                    </button>
                    <button class="action-btn" onclick="openSubView('viewFile')">
                        <span class="action-icon">&#128228;</span>
                        <span class="action-title">Transfer File</span>
                        <span class="action-desc">Send or receive files wirelessly</span>
                    </button>
                </div>
            </div>

            <!-- Sub View: Notification -->
            <div id="viewNotify" class="sub-view">
                <button class="back-btn" onclick="backToMain()">&#8592; Back</button>
                <div class="sheet-header"><h2>Send Alert</h2></div>
                <p class="view-desc">Send a notification that pops up on the selected device.</p>
                <input type="text" id="notifyTitle" placeholder="Title  (e.g. Reminder)">
                <input type="text" id="notifyBody" placeholder="Message  (e.g. Don't forget lunch!)">
                <button class="btn-primary" onclick="sendNotification()">Send Notification</button>
            </div>

            <!-- Sub View: Clipboard -->
            <div id="viewClipboard" class="sub-view">
                <button class="back-btn" onclick="backToMain()">&#8592; Back</button>
                <div class="sheet-header"><h2>Clipboard Sync</h2></div>
                <p class="view-desc">Share your clipboard between your Mac and this device instantly.</p>
                <textarea id="clipText" rows="4" placeholder="Text to send..." style="text-transform:none;"></textarea>
                <button class="btn-primary" onclick="setClipboard(false)">Send to Device</button>
                <button class="btn-secondary" onclick="setClipboard(true)">Send Mac Clipboard to Device</button>
                <button class="btn-secondary" onclick="getClipboard()">Copy from Device to Mac</button>
            </div>

            <!-- Sub View: Terminal -->
            <div id="viewTerminal" class="sub-view">
                <button class="back-btn" onclick="backToMain()">&#8592; Back</button>
                <div class="sheet-header"><h2>Run Command</h2></div>
                <p class="view-desc">Run a shell command on this device and see the output.</p>
                <div class="terminal-output" id="termOutput"></div>
                <div class="btn-group">
                    <input type="text" id="termCommand" placeholder="e.g. uname -a" style="text-transform:none;" onkeydown="if(event.key === 'Enter') runCommand()">
                    <button class="btn-primary" style="width: auto; padding: 0 32px;" onclick="runCommand()">Run</button>
                </div>
            </div>

            <!-- Sub View: File Transfer -->
            <div id="viewFile" class="sub-view">
                <button class="back-btn" onclick="backToMain()">&#8592; Back</button>
                <div class="sheet-header"><h2>Transfer File</h2></div>

                <!-- Tab switcher -->
                <div class="file-tabs">
                    <button class="file-tab active" id="tabSend" onclick="switchFileTab('send')">&#128228; Send to Device</button>
                    <button class="file-tab" id="tabReceive" onclick="switchFileTab('receive')">&#128229; Receive from Device</button>
                </div>

                <!-- SEND panel -->
                <div id="panelSend">
                    <p class="view-desc">Pick any file and send it at full Wi-Fi speed. No size limit.</p>
                    <div style="display:flex; gap:10px; margin-bottom: 10px;">
                        <button class="btn-secondary" style="flex:1;" onclick="document.getElementById('filePicker').click()">Select Files</button>
                        <button class="btn-secondary" style="flex:1;" onclick="document.getElementById('folderPicker').click()">Select Folder</button>
"#;

/// The Control Hub page, part 4 of 6.
pub const PAGE_PART_4: &'static str = r#"                    </div>
                    <div id="dropZone" class="drop-zone" onclick="document.getElementById('filePicker').click()">
                        <input type="file" id="filePicker" style="display:none;" multiple onchange="onFilePicked(this)">
                        <input type="file" id="folderPicker" style="display:none;" webkitdirectory multiple onchange="onFilePicked(this)">
                        <div id="dropZoneContent">
                            <span class="drop-icon">&#128228;</span>
                            <p class="drop-label">Click or drag & drop files/folders here</p>
                            <p class="drop-sub">Send multiple items or entire folders at once</p>
                        </div>
                    </div>
                    <div id="fileResult" style="display:none; font-size:0.85rem; color:var(--muted); font-family:'Inter',sans-serif; text-transform:none; padding:4px 0;"></div>
                    <button class="btn-primary" id="btnSendFile" onclick="sendFile()" disabled>Send to Device</button>
                </div>

                <!-- RECEIVE panel -->
                <div id="panelReceive" style="display:none;">
                    <p class="view-desc">Files shared from the Android device appear here automatically. Share any file using the Android share sheet and select PDOS.</p>
                    <div class="receive-list" id="receiveList">
                        <p style="color:var(--muted); font-size:0.85rem; text-transform:none; font-family:'Inter',sans-serif;">No files received yet. Share a file from your Android device.</p>
                    </div>
                    <button class="btn-secondary" onclick="pollReceived()">Refresh</button>
                </div>
            </div>

        </div>
    </div>

    <!-- Activity Log Panel -->
    <div class="log-panel">
        <div class="log-header">Activity Log</div>
        <div class="activity-log" id="activityLog"></div>
    </div>

    <div class="toast-container" id="toastContainer"></div>

    <script>
        let selectedNodeId = null;

        function showToast(msg, type = 'success') {
            const container = document.getElementById('toastContainer');
            const toast = document.createElement('div');
            toast.className = 'toast ' + type;
            toast.innerHTML = type === 'success' ? '[OK] ' + msg : '[ERR] ' + msg;
            container.appendChild(toast);
            
            setTimeout(() => {
                toast.style.opacity = '0';
                setTimeout(() => toast.remove(), 300);
            }, 3000);
        }

        async function scanDevices() {
            const btn = document.getElementById('btnScan');
            btn.innerHTML = '[ SCANNING... ]';
            
            try {
                const response = await fetch('/api/devices');
                if (!response.ok) throw new Error("Connection failed");
                const devices = await response.json();
                
                const grid = document.getElementById('deviceGrid');
                grid.innerHTML = "";

                if (devices.length === 0) {
                    grid.innerHTML = '<div style="color:var(--muted); padding:40px;">[ NO NODES DETECTED ]</div>';
                } else {
                    devices.forEach((d) => {
                        const platformStr = typeof d.platform === 'object' ? 'unknown' : d.platform.toLowerCase();
                        let icon = "PC";
                        if (platformStr === 'mac') icon = "MAC";
                        if (platformStr === 'android') icon = "AND";
                        
                        const card = document.createElement('div');
                        card.className = 'device-card';
                        card.onclick = () => openModal(d.node_id, d.name);
                        
                        card.innerHTML = '<div class="device-icon">' + icon + '</div><div class="device-name">' + d.name + '</div><div class="device-status"><span class="status-dot"></span> ONLINE</div>';
                        grid.appendChild(card);
                    });
                    if (devices.length > 0) showToast('FOUND ' + devices.length + ' NODE(S)');
                }
            } catch (err) {
                showToast(err.message, 'error');
            } finally {
                btn.innerHTML = '[ SCAN NETWORK ]';
            }
        }

        function openModal(id, name) {
            selectedNodeId = id;
            document.getElementById('modalDeviceName').innerText = name.toUpperCase();
            document.getElementById('modalDeviceId').innerText = id.split('-')[0].toUpperCase();
            
            backToMain();
            document.getElementById('actionModal').classList.add('active');
        }

        function closeModal(event) {
            if (event === true || event.target.id === 'actionModal') {
                document.getElementById('actionModal').classList.remove('active');
                setTimeout(backToMain, 300);
            }
        }

        function openSubView(id) {
            document.getElementById('viewMain').classList.add('hidden');
            document.getElementById(id).classList.add('active');
        }

        function backToMain() {
            document.querySelectorAll('.sub-view').forEach(el => el.classList.remove('active'));
            document.getElementById('viewMain').classList.remove('hidden');
        }

        // Action Implementations
        async function sendNotification() {
            const title = document.getElementById('notifyTitle').value;
            const body = document.getElementById('notifyBody').value;
            try {
                const res = await fetch('/api/notify', {
                    method: 'POST',
                    headers: { 'Content-Type': 'application/json' },
                    body: JSON.stringify({ node_id: selectedNodeId, title, body })
                });
                if (res.ok) showToast("NOTIFICATION DISPATCHED");
                else showToast("DISPATCH FAILED", "error");
            } catch (err) { showToast(err.message, "error"); }
        }

        async function getClipboard() {
            try {
                const res = await fetch('/api/clipboard/get', {
                    method: 'POST',
                    headers: { 'Content-Type': 'application/json' },
                    body: JSON.stringify({ node_id: selectedNodeId })
                });
                const data = await res.json();
                if (res.ok) {
                    document.getElementById('clipText').value = data.content;
                    showToast("FETCHED TO LOCAL CLIPBOARD");
                }
                else showToast("FETCH FAILED", "error");
            } catch (err) { showToast(err.message, "error"); }
        }

        async function setClipboard(useLocal) {
            let content = useLocal ? "" : document.getElementById('clipText').value;
            try {
                const res = await fetch('/api/clipboard/set', {
                    method: 'POST',
                    headers: { 'Content-Type': 'application/json' },
                    body: JSON.stringify({ node_id: selectedNodeId, content, use_local: useLocal })
                });
                if (res.ok) showToast(useLocal ? "MAC CLIPBOARD SYNCED" : "TEXT PUSHED");
                else showToast("SYNC FAILED", "error");
            } catch (err) { showToast(err.message, "error"); }
        }

        async function runCommand() {
            const cmd = document.getElementById('termCommand').value;
            const out = document.getElementById('termOutput');
            out.innerHTML += '\n> ' + cmd;
            try {
                const res = await fetch('/api/exec', {
                    method: 'POST',
                    headers: { 'Content-Type': 'application/json' },
                    body: JSON.stringify({ node_id: selectedNodeId, command: cmd })
                });
                const data = await res.json();
                if (res.ok) out.innerHTML += '\n' + data.output;
                else out.innerHTML += '\n[ERR] ' + data.error;
            } catch (err) { out.innerHTML += '\n[ERR] ' + err.message; }
            out.scrollTop = out.scrollHeight;
            document.getElementById('termCommand').value = '';
        }

        let pickedFiles = [];

        function onFilePicked(input) {
            if (!input.files || input.files.length === 0) return;
            pickedFiles = Array.from(input.files);
            const zone = document.getElementById('dropZoneContent');
            if (pickedFiles.length === 1) {
                zone.innerHTML = '<span class="drop-icon">&#128196;</span><p class="drop-label">' + pickedFiles[0].name + '</p><p class="drop-sub">' + (pickedFiles[0].size / 1024).toFixed(1) + ' KB &mdash; click to change</p>';
            } else {
                const totalSize = pickedFiles.reduce((acc, f) => acc + f.size, 0);
                zone.innerHTML = '<span class="drop-icon">&#128196;</span><p class="drop-label">' + pickedFiles.length + ' files selected</p><p class="drop-sub">' + (totalSize / (1024*1024)).toFixed(1) + ' MB total &mdash; click to change</p>';
            }
            document.getElementById('btnSendFile').disabled = false;
            document.getElementById('fileResult').style.display = 'none';
        }

        // Drag and drop support
        document.addEventListener('DOMContentLoaded', () => {
            const zone = document.getElementById('dropZone');
            if (!zone) return;
            zone.addEventListener('dragover', e => { e.preventDefault(); zone.classList.add('drag-over'); });
            zone.addEventListener('dragleave', () => zone.classList.remove('drag-over'));
            zone.addEventListener('drop', e => {
                e.preventDefault();
                zone.classList.remove('drag-over');
                const files = e.dataTransfer.files;
                if (files && files.length > 0) {
                    pickedFiles = Array.from(files);
                    const inner = document.getElementById('dropZoneContent');
                    if (pickedFiles.length === 1) {
                        inner.innerHTML = '<span class="drop-icon">&#128196;</span><p class="drop-label">' + pickedFiles[0].name + '</p><p class="drop-sub">' + (pickedFiles[0].size / 1024).toFixed(1) + ' KB &mdash; click to change</p>';
                    } else {
                        const totalSize = pickedFiles.reduce((acc, f) => acc + f.size, 0);
                        inner.innerHTML = '<span class="drop-icon">&#128196;</span><p class="drop-label">' + pickedFiles.length + ' files selected</p><p class="drop-sub">' + (totalSize / (1024*1024)).toFixed(1) + ' MB total &mdash; click to change</p>';
                    }
                    document.getElementById('btnSendFile').disabled = false;
                }
            });
        });

        function switchFileTab(tab) {
            document.getElementById('panelSend').style.display = tab === 'send' ? 'flex' : 'none';
            document.getElementById('panelReceive').style.display = tab === 'receive' ? 'flex' : 'none';
            document.getElementById('panelSend').style.flexDirection = 'column';
            document.getElementById('tabSend').classList.toggle('active', tab === 'send');
            document.getElementById('tabReceive').classList.toggle('active', tab === 'receive');
            if (tab === 'receive') pollReceived();
        }

        async function pollReceived() {
            try {
                const res = await fetch('/api/pending-transfers');
                const items = await res.json();
                const list = document.getElementById('receiveList');
                if (!items || items.length === 0) {
                    list.innerHTML = '<p style="color:var(--muted); font-size:0.85rem; text-transform:none; font-family:Inter,sans-serif;">No files received yet. Share a file from your Android device.</p>';
                    return;
                }
                list.innerHTML = items.map(item => {
                    const sizeMB = (item.size / (1024*1024)).toFixed(2);
                    const date = new Date(item.received_at * 1000).toLocaleTimeString();
                    return '<div class="receive-item"><div><div class="receive-item-name">' + item.filename + '</div><div class="receive-item-size">' + sizeMB + ' MB &mdash; received at ' + date + '</div></div></div>';
                }).join('');
            } catch(e) { console.error(e); }
        }

        // Phase 4A: Poll Sender-Side Progress
        let progressInterval = null;
        async function pollProgress() {
            try {
                const res = await fetch('/api/transfer-status');
                const items = await res.json();
                const container = document.getElementById('fileResult');
                if (!items || items.length === 0) return;
                
                let activeTransfers = false;
                let html = '<div style="display:flex; flex-direction:column; gap:8px;">';
                for (const item of items) {
                    const pct = item.total > 0 ? Math.round((item.sent / item.total) * 100) : 0;
                    const sizeMB = (item.total / (1024*1024)).toFixed(1);
                    const sentMB = (item.sent / (1024*1024)).toFixed(1);
                    const statusText = item.status === 'completed' ? 'Done' : 'Transferring...';
                    if (item.status !== 'completed') activeTransfers = true;
                    
                    html += `
                        <div style="background:#222; border:1px solid #333; padding:8px; border-radius:6px;">
                            <div style="display:flex; justify-content:space-between; margin-bottom:4px;">
                                <span style="color:#ddd; font-weight:500;">${item.filename}</span>
                                <span style="color:#aaa;">${sentMB} / ${sizeMB} MB</span>
                            </div>
                            <div style="width:100%; height:6px; background:#111; border-radius:3px; overflow:hidden;">
                                <div style="width:${pct}%; height:100%; background:var(--primary); transition:width 0.3s;"></div>
                            </div>
                            <div style="text-align:right; margin-top:4px; font-size:0.75rem; color:${item.status === 'completed' ? '#4CAF50' : '#888'};">
                                ${statusText} (${pct}%)
                            </div>
                        </div>
                    `;
                }
                html += '</div>';
                container.innerHTML = html;
                
                if (!activeTransfers && progressInterval) {
                    clearInterval(progressInterval);
                    progressInterval = null;
                    document.getElementById('btnSendFile').innerHTML = 'Send to Device';
                    document.getElementById('btnSendFile').disabled = false;
                }
            } catch (e) { console.error(e); }
        }

        async function sendFile() {
            if (!pickedFiles || pickedFiles.length === 0) { showToast('Please choose a file first', 'error'); return; }
            const btn = document.getElementById('btnSendFile');
            btn.innerHTML = 'Preparing...';
            btn.disabled = true;
            const r = document.getElementById('fileResult');
            r.style.display = 'block';
            r.innerHTML = 'Starting transfer...';

            if (!progressInterval) progressInterval = setInterval(pollProgress, 500);

            let successCount = 0;
            let failCount = 0;
"#;

/// The Control Hub page, part 5 of 6.
pub const PAGE_PART_5: &'static str = r#"            
            for (let i = 0; i < pickedFiles.length; i++) {
                const file = pickedFiles[i];
                const relativePath = file.webkitRelativePath || file.name;
                
                try {
                    const encodedName = encodeURIComponent(relativePath);
                    const url = '/api/stream-upload?node_id=' + selectedNodeId + '&filename=' + encodedName;
                    
                    // The fetch resolves quickly because it streams to the Mac's /tmp dir at local disk speed
                    const res = await fetch(url, {
                        method: 'POST',
                        headers: {
                            'Content-Type': 'application/octet-stream',
                            'Content-Length': file.size.toString()
                        },
                        body: file
                    });
                    const data = await res.json();
                    if (res.ok) {
                        successCount++;
                    } else {
                        addLog('Failed: ' + (data.error || 'unknown'), 'error');
                        failCount++;
                    }
                } catch (err) {
                    addLog('Error: ' + err.message, 'error');
                    failCount++;
                }
            }
            btn.innerHTML = 'Waiting for Android...';
            // Button is re-enabled by pollProgress when all items are 'completed'
        }

        async function getFile() {}

        function addLog(msg, type) {
            const log = document.getElementById('activityLog');
            if (!log) return;
            const entry = document.createElement('div');
            entry.className = 'log-entry' + (type ? ' log-' + type : '');
            const time = new Date().toLocaleTimeString('en-US', { hour12: false, hour: '2-digit', minute: '2-digit', second: '2-digit' });
            entry.innerHTML = '<span class="log-time">' + time + '</span> ' + msg;
            log.appendChild(entry);
            log.scrollTop = log.scrollHeight;
        }

        // ── Observability Tab Switching ──
        function switchMainTab(tab) {
            document.getElementById('pageDevices').style.display = tab === 'devices' ? 'block' : 'none';
            document.getElementById('pageObservability').style.display = tab === 'observability' ? 'block' : 'none';
            document.getElementById('tabDevices').classList.toggle('active', tab === 'devices');
            document.getElementById('tabObservability').classList.toggle('active', tab === 'observability');
            if (tab === 'observability') {
                loadObservability();
            }
        }

        let obsInterval = null;

        function loadObservability() {
            if (obsInterval) clearInterval(obsInterval);
            loadHealthScore();
            loadLiveMetrics();
            loadProcessMetrics();
            loadTransferHistory();
            loadProtocolStats();
            loadCompressionAnalytics();
            loadStorageForecast();
            loadNetworkPath();
            loadBottleneck();
            loadBufferAnalysis();
            obsInterval = setInterval(() => {
                loadHealthScore();
                loadLiveMetrics();
                loadProcessMetrics();
            }, 3000);
        }

        async function loadHealthScore() {
            try {
                const res = await fetch('/api/health-score');
                const d = await res.json();
                document.getElementById('overallHealthScore').innerText = Math.round(d.overall || 0);
                document.getElementById('healthCpu').style.width = (d.cpu || 0) + '%';
                document.getElementById('healthCpuLabel').innerText = Math.round(d.cpu || 0);
                document.getElementById('healthNetwork').style.width = (d.network || 0) + '%';
                document.getElementById('healthNetworkLabel').innerText = Math.round(d.network || 0);
                document.getElementById('healthDisk').style.width = (d.disk || 0) + '%';
                document.getElementById('healthDiskLabel').innerText = Math.round(d.disk || 0);
                document.getElementById('healthIntegrity').style.width = (d.integrity || 0) + '%';
                document.getElementById('healthIntegrityLabel').innerText = Math.round(d.integrity || 0);
                document.getElementById('healthRecovery').style.width = (d.recovery || 0) + '%';
                document.getElementById('healthRecoveryLabel').innerText = Math.round(d.recovery || 0);
            } catch(e) {}
        }

        async function loadLiveMetrics() {
            try {
                const res = await fetch('/api/system-metrics');
                const m = await res.json();
                document.getElementById('liveCpu').innerText = m.cpu_usage + '%';
                document.getElementById('liveMemory').innerText = m.memory_mb + ' MB';
                document.getElementById('liveTx').innerText = m.network_tx_mbps + ' Mbps';
                document.getElementById('liveRx').innerText = m.network_rx_mbps + ' Mbps';
            } catch(e) {}
            try {
                const res = await fetch('/api/thermal');
                const t = await res.json();
                document.getElementById('liveCpuTemp').innerText = t.cpu_temp_c ? t.cpu_temp_c + '°C' : '--';
                document.getElementById('liveFan').innerText = t.fan_rpm ? t.fan_rpm + ' RPM' : '--';
                document.getElementById('liveBattery').innerText = t.battery_pct ? t.battery_pct + '%' : '--';
                document.getElementById('liveThermal').innerText = t.thermal_state || '--';
            } catch(e) {}
        }

        async function loadProcessMetrics() {
            try {
                const res = await fetch('/api/process-metrics');
                const p = await res.json();
                const procs = p.processes || {};
                document.getElementById('procRustCpu').innerText = (procs.rust_daemon && procs.rust_daemon.cpu != null) ? procs.rust_daemon.cpu.toFixed(1) + '%' : '--';
                document.getElementById('procRustRam').innerText = (procs.rust_daemon && procs.rust_daemon.ram_mb != null) ? procs.rust_daemon.ram_mb.toFixed(1) + ' MB' : '--';
                document.getElementById('procHashCpu').innerText = (procs.hash_thread && procs.hash_thread.cpu != null) ? procs.hash_thread.cpu.toFixed(1) + '%' : '--';
                document.getElementById('procHashRam').innerText = (procs.hash_thread && procs.hash_thread.ram_mb != null) ? procs.hash_thread.ram_mb.toFixed(1) + ' MB' : '--';
            } catch(e) {}
        }

        async function loadTransferHistory() {
            try {
                const res = await fetch('/api/transfer-history');
                const items = await res.json();
                const container = document.getElementById('transferHistoryList');
                if (!items || items.length === 0) {
                    container.innerHTML = '<div style="color:var(--muted);padding:20px;text-align:center;font-size:0.85rem;font-family:Inter,sans-serif;text-transform:none;">No transfer history yet.</div>';
                    return;
                }
                let html = '';
                for (const item of items) {
                    const sizeMB = (item.size / 1_048_576).toFixed(1);
                    const speed = item.average_speed_mbps ? item.average_speed_mbps.toFixed(1) : '?';
                    const score = item.health_score != null ? Math.round(item.health_score) : '--';
                    const statusClass = item.completed ? 'ok' : 'err';
                    const statusLabel = item.completed ? 'Done' : 'Failed';
                    html += '<div class="hist-item" onclick="showTransferDetail(\'' + item.id + '\')">';
                    html += '<div class="hist-item-header"><span class="name">' + item.filename + '</span><span class="badge ' + statusClass + '">' + statusLabel + '</span></div>';
                    html += '<div class="hist-item-details"><span>' + sizeMB + ' MB</span><span>' + speed + ' Mbps avg</span><span>Score: ' + score + '/100</span>';
                    if (item.compression_ratio) html += '<span>Ratio: ' + item.compression_ratio.toFixed(2) + '</span>';
                    if (item.reconnects > 0) html += '<span>Reconnects: ' + item.reconnects + '</span>';
                    html += '</div></div>';
                }
                container.innerHTML = html;
            } catch(e) {}
        }

        async function showTransferDetail(id) {
            document.getElementById('transferDetail').style.display = 'block';
            document.getElementById('waterfallContainer').style.display = 'block';
            try {
                const res = await fetch('/api/transfer-report?id=' + encodeURIComponent(id));
                const s = await res.json();
                const t = s.transfer_summary || {};
                const f = s.file || {};
                const xfer = s.transfer || {};
                const net = s.network || {};
                const res_ = s.resources || {};
                const result = s.result || {};
                const health = s.health || {};

                const html = `
                    <div class="report-section">
                        <h4>Transfer Summary</h4>
                        <div class="report-grid">
                            <span class="key">Transfer ID</span><span class="val">${t.transfer_id || '--'}</span>
                            <span class="key">Start Time</span><span class="val">${t.start_time || '--'}</span>
                            <span class="key">End Time</span><span class="val">${t.end_time || '--'}</span>
                            <span class="key">Duration</span><span class="val">${t.duration_secs ? t.duration_secs.toFixed(1) + 's' : '--'}</span>
                        </div>
                    </div>
                    <div class="report-section">
                        <h4>File</h4>
                        <div class="report-grid">
                            <span class="key">Name</span><span class="val">${f.name || '--'}</span>
                            <span class="key">Type</span><span class="val">${f.type || '--'}</span>
                            <span class="key">Extension</span><span class="val">${f.extension || '--'}</span>
                            <span class="key">SHA256</span><span class="val" style="font-size:0.7rem;">${f.sha256 ? f.sha256.substring(0, 16) + '...' : '--'}</span>
                            <span class="key">Original Size</span><span class="val">${f.original_size ? (f.original_size / 1_048_576).toFixed(1) + ' MB' : '--'}</span>
                            <span class="key">Compressed Size</span><span class="val">${f.compressed_size ? (f.compressed_size / 1_048_576).toFixed(1) + ' MB' : 'N/A'}</span>
                            <span class="key">Compression Ratio</span><span class="val">${f.compression_ratio != null ? f.compression_ratio.toFixed(3) : 'N/A'}</span>
                        </div>
                    </div>
                    <div class="report-section">
                        <h4>Transfer Speed</h4>
                        <div class="report-grid">
                            <span class="key">Average Speed</span><span class="val">${xfer.average_speed_mbps ? xfer.average_speed_mbps.toFixed(1) + ' Mbps' : '--'}</span>
                            <span class="key">Peak Speed</span><span class="val">${xfer.peak_speed_mbps ? xfer.peak_speed_mbps.toFixed(1) + ' Mbps' : '--'}</span>
                            <span class="key">Minimum Speed</span><span class="val">${xfer.min_speed_mbps ? xfer.min_speed_mbps.toFixed(1) + ' Mbps' : '--'}</span>
                            <span class="key">Median Speed</span><span class="val">${xfer.median_speed_mbps ? xfer.median_speed_mbps.toFixed(1) + ' Mbps' : '--'}</span>
                            <span class="key">95th Percentile</span><span class="val">${xfer.p95_speed_mbps ? xfer.p95_speed_mbps.toFixed(1) + ' Mbps' : '--'}</span>
                        </div>
                    </div>
                    <div class="report-section">
                        <h4>Network</h4>
                        <div class="report-grid">
                            <span class="key">Average RTT</span><span class="val">${net.average_rtt_ms ? net.average_rtt_ms.toFixed(1) + ' ms' : '--'}</span>
                            <span class="key">Peak RTT</span><span class="val">${net.peak_rtt_ms ? net.peak_rtt_ms.toFixed(1) + ' ms' : '--'}</span>
                            <span class="key">Packet Loss</span><span class="val">${net.packet_loss_pct ? net.packet_loss_pct.toFixed(1) + '%' : '0%'}</span>
                            <span class="key">Retransmissions</span><span class="val">${net.retransmissions || 0}</span>
                            <span class="key">Reconnects</span><span class="val">${net.reconnects || 0}</span>
                        </div>
                    </div>
                    <div class="report-section">
                        <h4>Resources</h4>
                        <div class="report-grid">
                            <span class="key">Average CPU</span><span class="val">${res_.average_cpu_pct ? res_.average_cpu_pct.toFixed(1) + '%' : '--'}</span>
                            <span class="key">Peak CPU</span><span class="val">${res_.peak_cpu_pct ? res_.peak_cpu_pct.toFixed(1) + '%' : '--'}</span>
                            <span class="key">Average RAM</span><span class="val">${res_.average_ram_mb ? res_.average_ram_mb.toFixed(1) + ' MB' : '--'}</span>
                            <span class="key">Peak RAM</span><span class="val">${res_.peak_ram_mb ? res_.peak_ram_mb.toFixed(1) + ' MB' : '--'}</span>
                            <span class="key">Disk Read</span><span class="val">${res_.disk_read_mbps ? res_.disk_read_mbps.toFixed(1) + ' MB/s' : '--'}</span>
                            <span class="key">Disk Write</span><span class="val">${res_.disk_write_mbps ? res_.disk_write_mbps.toFixed(1) + ' MB/s' : '--'}</span>
                        </div>
                    </div>
                    <div class="report-section">
                        <h4>Result</h4>
                        <div class="report-grid">
                            <span class="key">Completed</span><span class="val">${result.completed ? 'Yes' : 'No'}</span>
                            <span class="key">Verified</span><span class="val">${result.verified ? 'Yes' : 'No'}</span>
                            <span class="key">Resumed</span><span class="val">${result.resumed ? 'Yes' : 'No'}</span>
                            <span class="key">Interrupted</span><span class="val">${result.interrupted ? 'Yes' : 'No'}</span>
                            <span class="key">Error</span><span class="val">${result.error || 'None'}</span>
                        </div>
                    </div>
                    <div class="report-section">
                        <h4>Health</h4>
                        <div class="report-grid">
                            <span class="key">Health Score</span><span class="val" style="font-size:1.3rem;font-weight:700;">${health.health_score != null ? Math.round(health.health_score) + '/100' : '--'}</span>
                            <span class="key">Bottleneck</span><span class="val">${health.bottleneck || '--'}</span>
                            <span class="key">Recommendation</span><span class="val">${health.recommendation || '--'}</span>
                        </div>
                    </div>
                `;
                document.getElementById('transferReportContent').innerHTML = html;
                document.getElementById('detailTitle').innerText = 'Transfer Report: ' + (f.name || id);
                document.getElementById('transferDetail').style.display = 'block';
                document.title = 'PDOS - ' + (f.name || 'Report');

                // Load waterfall
                loadWaterfall(id);
            } catch(e) {
                document.getElementById('transferReportContent').innerHTML = '<div style="color:var(--muted);">Error loading report.</div>';
            }
        }

        async function loadWaterfall(id) {
            try {
                const res = await fetch('/api/transfer-waterfall?id=' + encodeURIComponent(id));
                const phases = await res.json();
                const container = document.getElementById('waterfallContent');
                if (!phases || phases.length === 0) {
                    container.innerHTML = '<div style="color:var(--muted);font-size:0.85rem;font-family:Inter,sans-serif;text-transform:none;">No phase data.</div>';
                    return;
                }
                const totalMs = phases.reduce((acc, p) => acc + (p.duration_ms || 0), 0) || 1;
                let html = '';
                const phaseColors = {
                    'Discovery': 'phase-discovery',
                    'Authentication': 'phase-authentication',
                    'Compression': 'phase-compression',
                    'TLS': 'phase-tls',
                    'Streaming': 'phase-streaming',
                    'Hash': 'phase-hash',
                    'Archive': 'phase-archive',
                };
                for (const p of phases) {
                    const pct = Math.max(2, ((p.duration_ms || 0) / totalMs) * 100);
                    const colorClass = phaseColors[p.name] || '';
                    html += '<div class="waterfall-bar"><span class="label">' + p.name + '</span>' +
                        '<div class="track"><div class="fill ' + colorClass + '" style="width:' + pct + '%"></div></div>' +
                        '<span class="time">' + (p.duration_ms ? p.duration_ms.toFixed(0) + 'ms' : '--') + '</span></div>';
                }
                container.innerHTML = html;
            } catch(e) {
                document.getElementById('waterfallContent').innerHTML = '<div style="color:var(--muted);">Error loading waterfall.</div>';
            }
        }

        async function loadProtocolStats() {
            try {
                const res = await fetch('/api/protocol-stats');
                const stats = await res.json();
                const grid = document.getElementById('protocolStatsGrid');
                const entries = [
                    { key: 'Discovery', val: stats.discovery_packets || 0 },
                    { key: 'Auth', val: stats.auth_requests || 0 },
                    { key: 'Transfers', val: stats.transfer_requests || 0 },
                    { key: 'Resume', val: stats.resume_requests || 0 },
                    { key: 'Cancelled', val: stats.cancelled_transfers || 0 },
                    { key: 'Completed', val: stats.completed_transfers || 0 },
                    { key: 'Failed', val: stats.failed_transfers || 0 },
                    { key: 'TLS', val: stats.tls_handshakes || 0 },
"#;

/// The Control Hub page, part 6 of 6.
pub const PAGE_PART_6: &'static str = r#"                    { key: 'Range', val: stats.range_requests || 0 },
                ];
                grid.innerHTML = entries.map(e =>
                    '<div class="proto-stat"><div class="num">' + e.val + '</div><div class="label">' + e.key + '</div></div>'
                ).join('');
            } catch(e) {}
        }

        async function loadCompressionAnalytics() {
            try {
                const res = await fetch('/api/compression-analytics');
                const items = await res.json();
                const container = document.getElementById('compressionAnalyticsList');
                if (!items || items.length === 0) {
                    container.innerHTML = '<div style="color:var(--muted);font-size:0.85rem;font-family:Inter,sans-serif;text-transform:none;">No compressed transfers yet.</div>';
                    return;
                }
                let html = '';
                for (const item of items) {
                    const origMB = (item.original_size / 1_048_576).toFixed(1);
                    const compMB = (item.compressed_size / 1_048_576).toFixed(1);
                    const savedMB = item.bandwidth_saved ? (item.bandwidth_saved / 1_048_576).toFixed(1) : '0';
                    html += '<div class="hist-item"><div class="hist-item-header"><span class="name">' + item.filename + '</span><span class="badge ok">Ratio: ' + (item.compression_ratio ? item.compression_ratio.toFixed(2) : '?') + '</span></div>' +
                        '<div class="hist-item-details"><span>Original: ' + origMB + ' MB</span><span>Compressed: ' + compMB + ' MB</span>' +
                        '<span>Saved: ' + savedMB + ' MB</span><span>Time: ' + (item.compression_time_ms || '?') + ' ms</span></div></div>';
                }
                container.innerHTML = html;
            } catch(e) {}
        }

        async function loadStorageForecast() {
            try {
                const res = await fetch('/api/storage-forecast?path=' + encodeURIComponent('/tmp') + '&size=0');
                const s = await res.json();
                const html = '<div class="obs-grid" style="grid-template-columns: repeat(auto-fit, minmax(150px, 1fr));">' +
                    '<div class="metric-card"><div class="metric-label">Total</div><div class="metric-value">' + (s.total_gb || 0).toFixed(1) + ' GB</div></div>' +
                    '<div class="metric-card"><div class="metric-label">Free</div><div class="metric-value">' + (s.free_gb || 0).toFixed(1) + ' GB</div></div>' +
                    '<div class="metric-card"><div class="metric-label">File Size</div><div class="metric-value">' + (s.file_size_gb || 0).toFixed(2) + ' GB</div></div>' +
                    '<div class="metric-card"><div class="metric-label">Remaining</div><div class="metric-value">' + (s.remaining_gb || 0).toFixed(1) + ' GB</div></div>' +
                    '<div class="metric-card"><div class="metric-label">Status</div><div class="metric-value" style="font-size:1rem;color:' + (s.enough_space ? '#4CAF50' : '#f44336') + ';">' + (s.enough_space ? 'Enough Space' : 'Low Space') + '</div></div>' +
                    '</div>';
                document.getElementById('storageForecastContent').innerHTML = html;
            } catch(e) {}
        }

        async function loadNetworkPath() {
            try {
                const res = await fetch('/api/network-path');
                const items = await res.json();
                const container = document.getElementById('networkPathContent');
                if (!items || items.length === 0) {
                    container.innerHTML = '<div style="color:var(--muted);font-size:0.85rem;font-family:Inter,sans-serif;text-transform:none;">No network data yet.</div>';
                    return;
                }
                let html = '<div style="font-family:Inter,sans-serif;text-transform:none;">';
                for (const n of items.slice(-20)) {
                    const eventClass = n.event === 'Disconnected' ? 'err' : n.event === 'stable' ? 'ok' : 'warn';
                    html += '<div class="hist-item"><div class="hist-item-header"><span class="name">' + (n.interface || '?') + '</span><span class="badge ' + eventClass + '">' + (n.event || 'stable') + '</span></div>' +
                        '<div class="hist-item-details"><span>' + (n.ip || '--') + '</span><span>' + (n.rssi || '--') + ' dBm</span><span>' + (n.link_speed || '--') + ' Mbps</span><span style="color:#666;">' + (n.time || '') + '</span></div></div>';
                }
                html += '</div>';
                container.innerHTML = html;
            } catch(e) {}
        }

        async function loadBottleneck() {
            try {
                const res = await fetch('/api/bottleneck');
                const b = await res.json();
                const html = '<div class="obs-grid">' +
                    '<div class="obs-card"><div style="font-size:2rem;font-weight:700;text-align:center;">' + (b.bottleneck || 'Idle') + '</div><div style="text-align:center;color:var(--muted);font-size:0.8rem;margin-top:4px;">Current Bottleneck</div></div>' +
                    '<div class="obs-card"><div style="font-size:1rem;font-family:Inter,sans-serif;text-transform:none;color:var(--muted);">' + (b.recommendation || 'No transfers yet.') + '</div><div style="margin-top:8px;color:var(--muted);font-size:0.8rem;">Health Score: ' + (b.health_score != null ? Math.round(b.health_score) + '/100' : '--') + '</div></div>' +
                    '</div>';
                document.getElementById('bottleneckContent').innerHTML = html;
            } catch(e) {}
        }

        async function loadBufferAnalysis() {
            try {
                const res = await fetch('/api/buffer-analysis');
                const b = await res.json();
                const html = '<div class="obs-grid" style="grid-template-columns: repeat(auto-fit, minmax(150px, 1fr));">' +
                    '<div class="metric-card"><div class="metric-label">Read Buffer</div><div class="metric-value">' + (b.read_buffer_kb || 64) + ' KB</div></div>' +
                    '<div class="metric-card"><div class="metric-label">Write Buffer</div><div class="metric-value">' + (b.write_buffer_kb || 64) + ' KB</div></div>' +
                    '<div class="metric-card"><div class="metric-label">Avg Queue</div><div class="metric-value">' + (b.average_queue_depth || 0).toFixed(1) + '</div></div>' +
                    '<div class="metric-card"><div class="metric-label">Max Queue</div><div class="metric-value">' + (b.max_queue_depth || 0) + '</div></div>' +
                    '<div class="metric-card"><div class="metric-label">Backpressure</div><div class="metric-value">' + (b.backpressure_events || 0) + '</div></div>' +
                    '</div>';
                document.getElementById('bufferAnalysisContent').innerHTML = html;
            } catch(e) {}
        }

        // Initial scan with log
        window.onload = () => {
            addLog('Control Hub loaded. Scanning for devices...');
            setTimeout(scanDevices, 500);
        };
    </script>
</body>
</html>
"#;

/// The text of the Control Hub page served at `/`: one self-contained HTML
/// document with its styles and scripts.
pub open spec fn dashboard_html_text() -> Seq<char> {
    PAGE_PART_1@ + PAGE_PART_2@ + PAGE_PART_3@ + PAGE_PART_4@ + PAGE_PART_5@ + PAGE_PART_6@
}

/// The Control Hub page.
pub fn get_dashboard_html() -> (s: String)
    ensures
        s@ == dashboard_html_text(),
{
    let mut s = String::from_str(PAGE_PART_1);
    s.append(PAGE_PART_2);
    s.append(PAGE_PART_3);
    s.append(PAGE_PART_4);
    s.append(PAGE_PART_5);
    s.append(PAGE_PART_6);
    s
}

} // verus!
