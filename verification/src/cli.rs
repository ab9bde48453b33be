use vstd::prelude::*;
use crate::config::TransportMode;
use crate::http::lowercase;
use crate::text::{chars_eq_str, chars_of, parse_unsigned, parse_unsigned_range, split_char, split_on, string_of};

verus! {

// ---------------------------------------------------------------------------
// Command-line arguments
// ---------------------------------------------------------------------------

/// A decimal number of at most `max`, as `str::parse` reads it.
pub open spec fn number_of(s: Seq<char>, max: int) -> Option<int> {
    parse_unsigned(s, 10, max)
}

fn parse_number(v: &Vec<char>, max: u64) -> (r: Option<u64>)
    ensures
        match r {
            Some(n) => number_of(v@, max as int) == Some(n as int),
            None => number_of(v@, max as int) is None,
        },
{
    assert(v@.subrange(0, v.len() as int) == v@);
    parse_unsigned_range(v, 0, v.len(), 10, max)
}

/// A port argument: the number when it is one, else `default`.
pub open spec fn port_or(arg: Seq<char>, default: u16) -> u16 {
    match number_of(arg, 65535) {
        Some(p) => p as u16,
        None => default,
    }
}

/// Read a port argument, falling back to `default`.
pub fn parse_port_or(arg: &str, default: u16) -> (p: u16)
    ensures
        p == port_or(arg@, default),
{
    match parse_number(&chars_of(arg), 65535) {
        Some(n) => n as u16,
        None => default,
    }
}

/// Read a number of seconds, falling back to `default`.
pub fn parse_secs_or(arg: &str, default: u64) -> (s: u64)
    ensures
        s == match number_of(arg@, u64::MAX as int) {
            Some(n) => n as u64,
            None => default,
        },
{
    match parse_number(&chars_of(arg), u64::MAX) {
        Some(n) => n,
        None => default,
    }
}

/// `host:port`: exactly one `:`; the port defaults to 8080 when it is no number.
pub open spec fn host_port_of(target: Seq<char>) -> Option<(Seq<char>, u16)> {
    let parts = split_on(target, ':');
    if parts.len() == 2 { Some((parts[0], port_or(parts[1], 8080))) } else { None }
}

/// Split a `host:port` target.
pub fn parse_host_port(target: &str) -> (r: Option<(String, u16)>)
    ensures
        match r {
            Some((h, p)) => host_port_of(target@) == Some((h@, p)),
            None => host_port_of(target@) is None,
        },
{
    let v = chars_of(target);
    let parts = split_char(&v, ':');
    if parts.len() == 2 {
        proof {
            crate::procfs::lemma_views_index_pub(parts@, 0);
            crate::procfs::lemma_views_index_pub(parts@, 1);
        }
        let port = match parse_number(&parts[1], 65535) {
            Some(n) => n as u16,
            None => 8080,
        };
        Some((string_of(&parts[0]), port))
    } else {
        None
    }
}

/// The data path named on the command line (case-insensitive).
pub open spec fn transport_mode_named(name: Seq<char>) -> Option<TransportMode> {
    let m = lowercase(name);
    if m == "tcp"@ || m == "tcpbuffered"@ {
        Some(TransportMode::TcpBuffered)
    } else if m == "zerocopy"@ || m == "tcpzerocopy"@ {
        Some(TransportMode::TcpZeroCopy)
    } else if m == "udp"@ || m == "udpcustom"@ {
        Some(TransportMode::UdpCustom)
    } else if m == "quic"@ {
        Some(TransportMode::Quic)
    } else {
        None
    }
}

/// Read a `--mode` value.
pub fn parse_transport_mode(name: &str) -> (r: Option<TransportMode>)
    ensures
        r == transport_mode_named(name@),
{
    let m = crate::http::to_lowercase(&chars_of(name));
    if chars_eq_str(&m, "tcp") || chars_eq_str(&m, "tcpbuffered") {
        Some(TransportMode::TcpBuffered)
    } else if chars_eq_str(&m, "zerocopy") || chars_eq_str(&m, "tcpzerocopy") {
        Some(TransportMode::TcpZeroCopy)
    } else if chars_eq_str(&m, "udp") || chars_eq_str(&m, "udpcustom") {
        Some(TransportMode::UdpCustom)
    } else if chars_eq_str(&m, "quic") {
        Some(TransportMode::Quic)
    } else {
        None
    }
}

/// The options of `send-file --http` after the local path.
pub struct SendOptions {
    /// The first free-standing argument: the remote file name.
    pub remote_filename: Option<String>,
    /// `--progress-callback <port>` (none when the port is no number).
    pub callback_port: Option<u16>,
    /// `--mode <name>`: the last recognised one.
    pub mode: Option<TransportMode>,
    /// `--parallel <n>`: at least 1 (1 when no number).
    pub parallel_streams: usize,
}

/// The options as plain values.
pub struct SendOptionsView {
    pub remote_filename: Option<Seq<char>>,
    pub callback_port: Option<u16>,
    pub mode: Option<TransportMode>,
    pub parallel_streams: usize,
}

/// The options after reading the arguments from index `i` on.
pub open spec fn send_options_from(args: Seq<Seq<char>>, i: int, acc: SendOptionsView) -> SendOptionsView
    decreases args.len() - i,
{
    if i < 0 || i >= args.len() {
        acc
    } else if args[i] == "--progress-callback"@ && i + 1 < args.len() {
        send_options_from(
            args,
            i + 2,
            SendOptionsView {
                callback_port: match number_of(args[i + 1], 65535) {
                    Some(p) => Some(p as u16),
                    None => None,
                },
                ..acc
            },
        )
    } else if args[i] == "--mode"@ && i + 1 < args.len() {
        send_options_from(
            args,
            i + 2,
            SendOptionsView {
                mode: match transport_mode_named(args[i + 1]) {
                    Some(m) => Some(m),
                    None => acc.mode,
                },
                ..acc
            },
        )
    } else if args[i] == "--parallel"@ && i + 1 < args.len() {
        send_options_from(
            args,
            i + 2,
            SendOptionsView {
                parallel_streams: match number_of(args[i + 1], usize::MAX as int) {
                    Some(n) => if n >= 1 { n as usize } else { 1 },
                    None => 1,
                },
                ..acc
            },
        )
    } else {
        send_options_from(
            args,
            i + 1,
            SendOptionsView {
                remote_filename: match acc.remote_filename {
                    Some(r) => Some(r),
                    None => Some(args[i]),
                },
                ..acc
            },
        )
    }
}

/// The options when no flag is given.
pub open spec fn no_send_options() -> SendOptionsView {
    SendOptionsView { remote_filename: None, callback_port: None, mode: None, parallel_streams: 1 }
}

impl SendOptions {
    pub open spec fn view_of(&self) -> SendOptionsView {
        SendOptionsView {
            remote_filename: match self.remote_filename {
                Some(r) => Some(r@),
                None => None,
            },
            callback_port: self.callback_port,
            mode: self.mode,
            parallel_streams: self.parallel_streams,
        }
    }
}

/// The texts of a list of strings.
pub open spec fn texts(s: Seq<String>) -> Seq<Seq<char>> {
    s.map_values(|x: String| x@)
}

/// Read the options of `send-file --http` from the arguments after the
/// local path.
pub fn parse_send_options(args: &Vec<String>) -> (o: SendOptions)
    ensures
        o.view_of() == send_options_from(texts(args@), 0, no_send_options()),
{
    let ghost all = texts(args@);
    let mut o = SendOptions { remote_filename: None, callback_port: None, mode: None, parallel_streams: 1 };
    let mut i: usize = 0;
    while i < args.len()
        invariant
            all == texts(args@),
            all.len() == args.len(),
            i <= args.len() + 1,
            send_options_from(all, i as int, o.view_of()) == send_options_from(all, 0, no_send_options()),
        decreases args.len() + 1 - i,
    {
        let a = chars_of(args[i].as_str());
        assert(a@ == all[i as int]);
        if chars_eq_str(&a, "--progress-callback") && i + 1 < args.len() {
            assert(all[i + 1] == args@[i + 1]@);
            o.callback_port = match parse_number(&chars_of(args[i + 1].as_str()), 65535) {
                Some(p) => Some(p as u16),
                None => None,
            };
            i = i + 2;
        } else if chars_eq_str(&a, "--mode") && i + 1 < args.len() {
            assert(all[i + 1] == args@[i + 1]@);
            match parse_transport_mode(args[i + 1].as_str()) {
                Some(m) => {
                    o.mode = Some(m);
                },
                None => {},
            }
            i = i + 2;
        } else if chars_eq_str(&a, "--parallel") && i + 1 < args.len() {
            assert(all[i + 1] == args@[i + 1]@);
            o.parallel_streams = match parse_number(&chars_of(args[i + 1].as_str()), usize::MAX as u64) {
                Some(n) => if n >= 1 { n as usize } else { 1 },
                None => 1,
            };
            i = i + 2;
        } else {
            if o.remote_filename.is_none() {
                o.remote_filename = Some(args[i].clone());
            }
            i = i + 1;
        }
    }
    o
}

/// The stream count actually used: one stream unless the target is this
/// machine (parallel streams share the air on Wi-Fi).
pub open spec fn effective_streams(target: Seq<char>, requested: usize) -> usize {
    let host = split_on(target, ':')[0];
    if host != "127.0.0.1"@ && host != "localhost"@ && requested > 1 { 1 } else { requested }
}

/// Limit the stream count for a remote target.
pub fn limit_streams(target: &str, requested: usize) -> (n: usize)
    ensures
        n == effective_streams(target@, requested),
{
    let parts = split_char(&chars_of(target), ':');
    proof {
        crate::procfs::lemma_views_index_pub(parts@, 0);
    }
    if !chars_eq_str(&parts[0], "127.0.0.1") && !chars_eq_str(&parts[0], "localhost") && requested > 1 {
        1
    } else {
        requested
    }
}


/// Whether a character is alphabetic or numeric in Unicode's sense.
pub uninterp spec fn alphanumeric(c: char) -> bool;

/// `char::is_alphanumeric`.
#[verifier::external_body]
fn is_alphanumeric(c: char) -> (r: bool)
    ensures
        r == alphanumeric(c),
{
    c.is_alphanumeric()
}

/// The characters of a host name kept in a node name: spaces become `-`,
/// then only letters, digits and `-` stay.
pub open spec fn node_name_chars(s: Seq<char>) -> Seq<char>
    decreases s.len(),
{
    if s.len() == 0 {
        Seq::empty()
    } else {
        let c = if s.last() == ' ' { '-' } else { s.last() };
        let rest = node_name_chars(s.drop_last());
        if alphanumeric(c) || c == '-' { rest.push(c) } else { rest }
    }
}

/// The name this machine advertises itself under: `PDOS-Mac-` and the
/// cleaned host name.
pub fn serve_node_name(hostname: &str) -> (r: String)
    ensures
        r@ == "PDOS-Mac-"@ + node_name_chars(hostname@),
{
    let v = chars_of(hostname);
    let mut out: Vec<char> = Vec::new();
    crate::text::push_str(&mut out, "PDOS-Mac-");
    let ghost head = out@;
    let mut i: usize = 0;
    while i < v.len()
        invariant
            0 <= i <= v.len(),
            out@ == head + node_name_chars(v@.subrange(0, i as int)),
        decreases v.len() - i,
    {
        assert(v@.subrange(0, i + 1).drop_last() == v@.subrange(0, i as int));
        let c = if v[i] == ' ' { '-' } else { v[i] };
        if is_alphanumeric(c) || c == '-' {
            out.push(c);
        }
        i = i + 1;
    }
    assert(v@.subrange(0, v.len() as int) == v@);
    string_of(&out)
}

} // verus!
