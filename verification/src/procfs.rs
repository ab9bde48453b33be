use vstd::prelude::*;
use crate::text::{chars_of, chars_eq_str, contains, contains_str, lines, parse_unsigned, parse_unsigned_range, parse_u64, split_char, split_on, string_of, trim, trim_chars, parse_u64_or_zero, slice_chars, split_lines, split_tokens, starts_with, starts_with_str, tokens, u64_or_zero, views};

verus! {

/// The `n`-th whitespace-separated field of a line as a `u64`; 0 when the
/// field is missing or no number.
pub open spec fn field_u64(line: Seq<char>, n: int) -> u64 {
    let t = tokens(line);
    if 0 <= n < t.len() { u64_or_zero(t[n]) } else { 0 }
}

/// `line.split_whitespace().nth(n).and_then(|s| s.parse().ok()).unwrap_or(0)`.
pub fn field_u64_exec(line: &Vec<char>, n: usize) -> (r: u64)
    ensures
        r == field_u64(line@, n as int),
{
    let t = split_tokens(line);
    if n < t.len() {
        assert(views(t@)[n as int] == t@[n as int]@);
        parse_u64_or_zero(&t[n])
    } else {
        0
    }
}

/// The lines of a file, or none when it could not be read.
pub open spec fn file_lines(content: Option<&str>) -> Seq<Seq<char>> {
    match content {
        Some(c) => lines(c@),
        None => Seq::empty(),
    }
}

fn read_lines(content: Option<&str>) -> (ls: Vec<Vec<char>>)
    ensures
        views(ls@) == file_lines(content),
{
    match content {
        Some(c) => {
            let v = chars_of(c);
            split_lines(&v)
        },
        None => {
            let ls: Vec<Vec<char>> = Vec::new();
            assert(views(ls@) =~= Seq::<Seq<char>>::empty());
            ls
        },
    }
}

proof fn lemma_views_index(s: Seq<Vec<char>>, i: int)
    requires
        0 <= i < s.len(),
    ensures
        views(s)[i] == s[i]@,
        views(s).len() == s.len(),
{
}

/// Indexing the texts of a list of character vectors.
pub proof fn lemma_views_index_pub(s: Seq<Vec<char>>, i: int)
    requires
        0 <= i < s.len(),
    ensures
        views(s)[i] == s[i]@,
        views(s).len() == s.len(),
{
}

proof fn lemma_views_take(s: Seq<Vec<char>>, i: int)
    requires
        0 <= i < s.len(),
    ensures
        views(s).subrange(0, i + 1).drop_last() == views(s).subrange(0, i),
        views(s).subrange(0, i + 1).last() == s[i]@,
{
    assert(views(s).subrange(0, i + 1).drop_last() =~= views(s).subrange(0, i));
}

// ---------------------------------------------------------------------------
// /proc/self/io
// ---------------------------------------------------------------------------

/// `(syscw, wchar, write_bytes)` from the lines of `/proc/self/io`; for each
/// key the last line that starts with it counts.
pub open spec fn self_io_fold(ls: Seq<Seq<char>>) -> (u64, u64, u64)
    decreases ls.len(),
{
    if ls.len() == 0 {
        (0, 0, 0)
    } else {
        let p = self_io_fold(ls.drop_last());
        let l = ls.last();
        if starts_with(l, "syscw:"@) {
            (field_u64(l, 1), p.1, p.2)
        } else if starts_with(l, "wchar:"@) {
            (p.0, field_u64(l, 1), p.2)
        } else if starts_with(l, "write_bytes:"@) {
            (p.0, p.1, field_u64(l, 1))
        } else {
            p
        }
    }
}

/// Write counters of this process from the text of `/proc/self/io`
/// (`None` when it could not be read): `(syscw, wchar, write_bytes)`.
pub fn parse_self_io(content: Option<&str>) -> (r: (u64, u64, u64))
    ensures
        r == self_io_fold(file_lines(content)),
{
    let ls = read_lines(content);
    let ghost all = views(ls@);
    let mut acc: (u64, u64, u64) = (0, 0, 0);
    let mut i: usize = 0;
    while i < ls.len()
        invariant
            all == views(ls@),
            0 <= i <= ls.len(),
            acc == self_io_fold(all.subrange(0, i as int)),
        decreases ls.len() - i,
    {
        proof {
            lemma_views_take(ls@, i as int);
        }
        let l = &ls[i];
        if starts_with_str(l, "syscw:") {
            acc = (field_u64_exec(l, 1), acc.1, acc.2);
        } else if starts_with_str(l, "wchar:") {
            acc = (acc.0, field_u64_exec(l, 1), acc.2);
        } else if starts_with_str(l, "write_bytes:") {
            acc = (acc.0, acc.1, field_u64_exec(l, 1));
        }
        i = i + 1;
    }
    assert(all.subrange(0, ls.len() as int) == all);
    acc
}

// ---------------------------------------------------------------------------
// /proc/meminfo
// ---------------------------------------------------------------------------

/// `(Dirty, Writeback, Cached, Buffers)` in KB, last line of each key counting.
pub open spec fn meminfo_fold(ls: Seq<Seq<char>>) -> (u64, u64, u64, u64)
    decreases ls.len(),
{
    if ls.len() == 0 {
        (0, 0, 0, 0)
    } else {
        let p = meminfo_fold(ls.drop_last());
        let l = ls.last();
        if starts_with(l, "Dirty:"@) {
            (field_u64(l, 1), p.1, p.2, p.3)
        } else if starts_with(l, "Writeback:"@) {
            (p.0, field_u64(l, 1), p.2, p.3)
        } else if starts_with(l, "Cached:"@) {
            (p.0, p.1, field_u64(l, 1), p.3)
        } else if starts_with(l, "Buffers:"@) {
            (p.0, p.1, p.2, field_u64(l, 1))
        } else {
            p
        }
    }
}

/// Page-cache figures from the text of `/proc/meminfo`: `(dirty, writeback,
/// cached + buffers)` in KB; the sum wraps as in a release build.
pub fn parse_meminfo_fs(content: Option<&str>) -> (r: (u64, u64, u64))
    ensures
        ({
            let m = meminfo_fold(file_lines(content));
            r == (m.0, m.1, ((m.2 + m.3) % 0x1_0000_0000_0000_0000) as u64)
        }),
{
    let ls = read_lines(content);
    let ghost all = views(ls@);
    let mut acc: (u64, u64, u64, u64) = (0, 0, 0, 0);
    let mut i: usize = 0;
    while i < ls.len()
        invariant
            all == views(ls@),
            0 <= i <= ls.len(),
            acc == meminfo_fold(all.subrange(0, i as int)),
        decreases ls.len() - i,
    {
        proof {
            lemma_views_take(ls@, i as int);
        }
        let l = &ls[i];
        if starts_with_str(l, "Dirty:") {
            acc = (field_u64_exec(l, 1), acc.1, acc.2, acc.3);
        } else if starts_with_str(l, "Writeback:") {
            acc = (acc.0, field_u64_exec(l, 1), acc.2, acc.3);
        } else if starts_with_str(l, "Cached:") {
            acc = (acc.0, acc.1, field_u64_exec(l, 1), acc.3);
        } else if starts_with_str(l, "Buffers:") {
            acc = (acc.0, acc.1, acc.2, field_u64_exec(l, 1));
        }
        i = i + 1;
    }
    assert(all.subrange(0, ls.len() as int) == all);
    (acc.0, acc.1, acc.2.wrapping_add(acc.3))
}

// ---------------------------------------------------------------------------
// First line with a given prefix (/proc/vmstat, /proc/stat)
// ---------------------------------------------------------------------------

/// Field 1 of the first line that starts with `prefix`; 0 when none does.
pub open spec fn first_prefixed_field(ls: Seq<Seq<char>>, prefix: Seq<char>) -> u64
    decreases ls.len(),
{
    if ls.len() == 0 {
        0
    } else if starts_with(ls[0], prefix) {
        field_u64(ls[0], 1)
    } else {
        first_prefixed_field(ls.drop_first(), prefix)
    }
}

fn first_prefixed_field_exec(content: Option<&str>, prefix: &str) -> (r: u64)
    ensures
        r == first_prefixed_field(file_lines(content), prefix@),
{
    let ls = read_lines(content);
    let ghost all = views(ls@);
    assert(all.subrange(0, all.len() as int) == all);
    let mut i: usize = 0;
    while i < ls.len()
        invariant
            all == views(ls@),
            all == file_lines(content),
            all.len() == ls.len(),
            0 <= i <= ls.len(),
            first_prefixed_field(all.subrange(i as int, all.len() as int), prefix@)
                == first_prefixed_field(all, prefix@),
        decreases ls.len() - i,
    {
        let ghost rest = all.subrange(i as int, all.len() as int);
        assert(rest[0] == ls@[i as int]@);
        assert(rest.drop_first() == all.subrange(i + 1, all.len() as int));
        if starts_with_str(&ls[i], prefix) {
            let r = field_u64_exec(&ls[i], 1);
            assert(rest.len() > 0);
            assert(first_prefixed_field(rest, prefix@) == field_u64(rest[0], 1));
            return r;
        }
        i = i + 1;
    }
    assert(all.subrange(i as int, all.len() as int) == Seq::<Seq<char>>::empty());
    0
}

/// Pages written by the system, from the text of `/proc/vmstat`: field 1 of
/// the first line starting with `nr_written `.
pub fn parse_vmstat_fs(content: Option<&str>) -> (r: u64)
    ensures
        r == first_prefixed_field(file_lines(content), "nr_written "@),
{
    first_prefixed_field_exec(content, "nr_written ")
}

/// Runnable tasks, from the text of `/proc/stat`: field 1 of the first line
/// starting with `procs_running `.
pub fn parse_run_queue_length(content: Option<&str>) -> (r: u64)
    ensures
        r == first_prefixed_field(file_lines(content), "procs_running "@),
{
    first_prefixed_field_exec(content, "procs_running ")
}

// ---------------------------------------------------------------------------
// /proc/self/status
// ---------------------------------------------------------------------------

/// `(voluntary, nonvoluntary)` context switches, last line of each key counting.
pub open spec fn switches_fold(ls: Seq<Seq<char>>) -> (u64, u64)
    decreases ls.len(),
{
    if ls.len() == 0 {
        (0, 0)
    } else {
        let p = switches_fold(ls.drop_last());
        let l = ls.last();
        if starts_with(l, "voluntary_ctxt_switches:"@) {
            (field_u64(l, 1), p.1)
        } else if starts_with(l, "nonvoluntary_ctxt_switches:"@) {
            (p.0, field_u64(l, 1))
        } else {
            p
        }
    }
}

/// Context switches of this process from the text of `/proc/self/status`.
pub fn parse_self_status_switches(content: Option<&str>) -> (r: (u64, u64))
    ensures
        r == switches_fold(file_lines(content)),
{
    let ls = read_lines(content);
    let ghost all = views(ls@);
    let mut acc: (u64, u64) = (0, 0);
    let mut i: usize = 0;
    while i < ls.len()
        invariant
            all == views(ls@),
            0 <= i <= ls.len(),
            acc == switches_fold(all.subrange(0, i as int)),
        decreases ls.len() - i,
    {
        proof {
            lemma_views_take(ls@, i as int);
        }
        let l = &ls[i];
        if starts_with_str(l, "voluntary_ctxt_switches:") {
            acc = (field_u64_exec(l, 1), acc.1);
        } else if starts_with_str(l, "nonvoluntary_ctxt_switches:") {
            acc = (acc.0, field_u64_exec(l, 1));
        }
        i = i + 1;
    }
    assert(all.subrange(0, ls.len() as int) == all);
    acc
}

/// Field 1 in bytes (the file counts KB), wrapping as in a release build.
pub open spec fn kb_field(l: Seq<char>) -> u64 {
    ((field_u64(l, 1) * 1024) % 0x1_0000_0000_0000_0000) as u64
}

/// `(VmData, RssAnon, RssFile, VmRSS, VmSize)` in bytes, last line of each key counting.
pub open spec fn memory_fold(ls: Seq<Seq<char>>) -> (u64, u64, u64, u64, u64)
    decreases ls.len(),
{
    if ls.len() == 0 {
        (0, 0, 0, 0, 0)
    } else {
        let p = memory_fold(ls.drop_last());
        let l = ls.last();
        if starts_with(l, "VmData:"@) {
            (kb_field(l), p.1, p.2, p.3, p.4)
        } else if starts_with(l, "RssAnon:"@) {
            (p.0, kb_field(l), p.2, p.3, p.4)
        } else if starts_with(l, "RssFile:"@) {
            (p.0, p.1, kb_field(l), p.3, p.4)
        } else if starts_with(l, "VmRSS:"@) {
            (p.0, p.1, p.2, kb_field(l), p.4)
        } else if starts_with(l, "VmSize:"@) {
            (p.0, p.1, p.2, p.3, kb_field(l))
        } else {
            p
        }
    }
}

/// Index of the last occurrence of `c` (-1 when none).
pub open spec fn last_index_of(s: Seq<char>, c: char) -> int
    decreases s.len(),
{
    if s.len() == 0 {
        -1
    } else if s.last() == c {
        s.len() - 1
    } else {
        last_index_of(s.drop_last(), c)
    }
}

/// `(minor, major)` page faults from `/proc/self/stat`: fields 7 and 9 after
/// the last `)`, when more than nine fields follow it.
pub open spec fn stat_faults(content: Option<&str>) -> (u64, u64) {
    match content {
        Some(c) => {
            let s = c@;
            let p = last_index_of(s, ')');
            if p < 0 {
                (0, 0)
            } else {
                let parts = tokens(s.subrange(p + 1, s.len() as int));
                if parts.len() > 9 { (u64_or_zero(parts[7]), u64_or_zero(parts[9])) } else { (0, 0) }
            }
        },
        None => (0, 0),
    }
}

fn last_index_exec(v: &Vec<char>, c: char) -> (r: Option<usize>)
    ensures
        match r {
            Some(i) => last_index_of(v@, c) == i as int && i < v.len(),
            None => last_index_of(v@, c) == -1,
        },
{
    let mut k = v.len();
    assert(v@.subrange(0, k as int) == v@);
    while k > 0
        invariant
            k <= v.len(),
            last_index_of(v@, c) == last_index_of(v@.subrange(0, k as int), c),
        decreases k,
    {
        assert(v@.subrange(0, k as int).drop_last() == v@.subrange(0, k - 1));
        if v[k - 1] == c {
            return Some(k - 1);
        }
        k = k - 1;
    }
    None
}

/// Memory figures of this process from `/proc/self/status` and
/// `/proc/self/stat`: `(vsz, rss, heap, anon, mapped, minor_faults,
/// major_faults)`, sizes in bytes.
pub fn parse_self_memory_stats(status: Option<&str>, stat: Option<&str>) -> (r: (u64, u64, u64, u64, u64, u64, u64))
    ensures
        ({
            let m = memory_fold(file_lines(status));
            let f = stat_faults(stat);
            r == (m.4, m.3, m.0, m.1, m.2, f.0, f.1)
        }),
{
    assert(last_index_of(Seq::<char>::empty(), ')') == -1);
    let ls = read_lines(status);
    let ghost all = views(ls@);
    let mut acc: (u64, u64, u64, u64, u64) = (0, 0, 0, 0, 0);
    let mut i: usize = 0;
    while i < ls.len()
        invariant
            all == views(ls@),
            0 <= i <= ls.len(),
            acc == memory_fold(all.subrange(0, i as int)),
        decreases ls.len() - i,
    {
        proof {
            lemma_views_take(ls@, i as int);
        }
        let l = &ls[i];
        let kb = field_u64_exec(l, 1).wrapping_mul(1024);
        if starts_with_str(l, "VmData:") {
            acc = (kb, acc.1, acc.2, acc.3, acc.4);
        } else if starts_with_str(l, "RssAnon:") {
            acc = (acc.0, kb, acc.2, acc.3, acc.4);
        } else if starts_with_str(l, "RssFile:") {
            acc = (acc.0, acc.1, kb, acc.3, acc.4);
        } else if starts_with_str(l, "VmRSS:") {
            acc = (acc.0, acc.1, acc.2, kb, acc.4);
        } else if starts_with_str(l, "VmSize:") {
            acc = (acc.0, acc.1, acc.2, acc.3, kb);
        }
        i = i + 1;
    }
    assert(all.subrange(0, ls.len() as int) == all);
    let mut minor: u64 = 0;
    let mut major: u64 = 0;
    match stat {
        Some(c) => {
            let v = chars_of(c);
            match last_index_exec(&v, ')') {
                Some(p) => {
                    let after = slice_chars(&v, p + 1, v.len());
                    let parts = split_tokens(&after);
                    if parts.len() > 9 {
                        proof {
                            lemma_views_index(parts@, 7);
                            lemma_views_index(parts@, 9);
                        }
                        minor = parse_u64_or_zero(&parts[7]);
                        major = parse_u64_or_zero(&parts[9]);
                    }
                },
                None => {},
            }
        },
        None => {},
    }
    (acc.4, acc.3, acc.0, acc.1, acc.2, minor, major)
}

} // verus!

verus! {

// ---------------------------------------------------------------------------
// /proc/self/maps
// ---------------------------------------------------------------------------

/// Pages of 4 KiB in the address range `start-end` that opens a maps line
/// (0 when the line holds no such range).
pub open spec fn map_line_pages(l: Seq<char>) -> int {
    let t = tokens(l);
    if t.len() >= 1 {
        let r = split_on(t[0], '-');
        if r.len() == 2 {
            match (parse_unsigned(r[0], 16, u64::MAX as int), parse_unsigned(r[1], 16, u64::MAX as int)) {
                (Some(a), Some(b)) => (if b >= a { b - a } else { 0 }) / 4096,
                _ => 0,
            }
        } else {
            0
        }
    } else {
        0
    }
}

/// Total mapped pages, wrapping as in a release build.
pub open spec fn maps_fold(ls: Seq<Seq<char>>) -> u64
    decreases ls.len(),
{
    if ls.len() == 0 {
        0
    } else {
        ((maps_fold(ls.drop_last()) + map_line_pages(ls.last())) % 0x1_0000_0000_0000_0000) as u64
    }
}

fn parse_hex_u64(v: &Vec<char>) -> (r: Option<u64>)
    ensures
        match r {
            Some(x) => parse_unsigned(v@, 16, u64::MAX as int) == Some(x as int),
            None => parse_unsigned(v@, 16, u64::MAX as int) is None,
        },
{
    assert(v@.subrange(0, v.len() as int) == v@);
    parse_unsigned_range(v, 0, v.len(), 16, u64::MAX)
}

fn map_line_pages_exec(l: &Vec<char>) -> (r: u64)
    ensures
        r == map_line_pages(l@),
{
    let t = split_tokens(l);
    if t.len() >= 1 {
        proof {
            lemma_views_index(t@, 0);
        }
        let r = split_char(&t[0], '-');
        if r.len() == 2 {
            proof {
                lemma_views_index(r@, 0);
                lemma_views_index(r@, 1);
            }
            match (parse_hex_u64(&r[0]), parse_hex_u64(&r[1])) {
                (Some(a), Some(b)) => {
                    let size = if b >= a { b - a } else { 0 };
                    size / 4096
                },
                _ => 0,
            }
        } else {
            0
        }
    } else {
        0
    }
}

/// Pages mapped by this process, from the text of `/proc/self/maps`.
pub fn parse_self_maps_pages(content: Option<&str>) -> (r: u64)
    ensures
        r == maps_fold(file_lines(content)),
{
    let ls = read_lines(content);
    let ghost all = views(ls@);
    let mut pages: u64 = 0;
    let mut i: usize = 0;
    while i < ls.len()
        invariant
            all == views(ls@),
            0 <= i <= ls.len(),
            pages == maps_fold(all.subrange(0, i as int)),
        decreases ls.len() - i,
    {
        proof {
            lemma_views_take(ls@, i as int);
        }
        pages = pages.wrapping_add(map_line_pages_exec(&ls[i]));
        i = i + 1;
    }
    assert(all.subrange(0, ls.len() as int) == all);
    pages
}

// ---------------------------------------------------------------------------
// /proc/self/sched, /proc/self/schedstat
// ---------------------------------------------------------------------------

/// The text after the first `:` of a line, trimmed, when there is a `:`.
pub open spec fn after_colon(l: Seq<char>) -> Option<Seq<char>> {
    let p = split_on(l, ':');
    if p.len() > 1 { Some(trim(p[1])) } else { None }
}

/// Migrations of this process: from the last line mentioning
/// `nr_migrations` that has a value after a `:`.
pub open spec fn migrations_fold(ls: Seq<Seq<char>>) -> u64
    decreases ls.len(),
{
    if ls.len() == 0 {
        0
    } else {
        let p = migrations_fold(ls.drop_last());
        let l = ls.last();
        if contains(l, "nr_migrations"@) {
            match after_colon(l) {
                Some(v) => u64_or_zero(v),
                None => p,
            }
        } else {
            p
        }
    }
}

fn after_colon_exec(l: &Vec<char>) -> (r: Option<Vec<char>>)
    ensures
        match r {
            Some(v) => after_colon(l@) == Some(v@),
            None => after_colon(l@) is None,
        },
{
    let p = split_char(l, ':');
    if p.len() > 1 {
        proof {
            lemma_views_index(p@, 1);
        }
        Some(trim_chars(&p[1]))
    } else {
        None
    }
}

/// Task migrations of this process from the text of `/proc/self/sched`.
pub fn parse_self_sched_migrations(content: Option<&str>) -> (r: u64)
    ensures
        r == migrations_fold(file_lines(content)),
{
    let ls = read_lines(content);
    let ghost all = views(ls@);
    let mut m: u64 = 0;
    let mut i: usize = 0;
    while i < ls.len()
        invariant
            all == views(ls@),
            0 <= i <= ls.len(),
            m == migrations_fold(all.subrange(0, i as int)),
        decreases ls.len() - i,
    {
        proof {
            lemma_views_take(ls@, i as int);
        }
        if contains_str(&ls[i], "nr_migrations") {
            match after_colon_exec(&ls[i]) {
                Some(v) => {
                    m = parse_u64_or_zero(&v);
                },
                None => {},
            }
        }
        i = i + 1;
    }
    assert(all.subrange(0, ls.len() as int) == all);
    m
}

/// Run-queue wait time in ns from `/proc/self/schedstat`: its second field,
/// when present and a number.
pub open spec fn schedstat_wait(content: Option<&str>) -> Option<u64> {
    match content {
        Some(c) => {
            let t = tokens(c@);
            if t.len() >= 2 {
                match parse_unsigned(t[1], 10, u64::MAX as int) {
                    Some(v) => Some(v as u64),
                    None => None,
                }
            } else {
                None
            }
        },
        None => None,
    }
}

/// The values after `:` of the lines of `/proc/self/sched` that mention
/// `wait_sum`, in order.
pub open spec fn wait_sum_values(ls: Seq<Seq<char>>) -> Seq<Seq<char>>
    decreases ls.len(),
{
    if ls.len() == 0 {
        Seq::empty()
    } else {
        let p = wait_sum_values(ls.drop_last());
        let l = ls.last();
        if contains(l, "wait_sum"@) {
            match after_colon(l) {
                Some(v) => p.push(v),
                None => p,
            }
        } else {
            p
        }
    }
}

/// Where the scheduling latency comes from.
pub enum SchedLatency {
    /// Read directly, in ns.
    Nanos(u64),
    /// Candidate `wait_sum` values in ms, to be read as decimals in order;
    /// the first that is a number counts.
    WaitSumMillis(Vec<String>),
}

/// Scheduling latency of this process: the wait time of
/// `/proc/self/schedstat` when it has one, else the `wait_sum` values of
/// `/proc/self/sched`.
pub fn parse_sched_latency(schedstat: Option<&str>, sched: Option<&str>) -> (r: SchedLatency)
    ensures
        schedstat_wait(schedstat) matches Some(ns) ==> (r matches SchedLatency::Nanos(x) && x == ns),
        schedstat_wait(schedstat) is None ==> (r matches SchedLatency::WaitSumMillis(v)
            && v@.map_values(|s: String| s@) == wait_sum_values(file_lines(sched))),
{
    match schedstat {
        Some(c) => {
            let v = chars_of(c);
            let t = split_tokens(&v);
            if t.len() >= 2 {
                proof {
                    lemma_views_index(t@, 1);
                }
                match parse_u64(&t[1]) {
                    Some(ns) => {
                        return SchedLatency::Nanos(ns);
                    },
                    None => {},
                }
            }
        },
        None => {},
    }
    let ls = read_lines(sched);
    let ghost all = views(ls@);
    let mut out: Vec<String> = Vec::new();
    let mut i: usize = 0;
    while i < ls.len()
        invariant
            all == views(ls@),
            0 <= i <= ls.len(),
            out@.map_values(|s: String| s@) == wait_sum_values(all.subrange(0, i as int)),
        decreases ls.len() - i,
    {
        proof {
            lemma_views_take(ls@, i as int);
        }
        if contains_str(&ls[i], "wait_sum") {
            match after_colon_exec(&ls[i]) {
                Some(v) => {
                    let s = string_of(&v);
                    let ghost before = out@;
                    out.push(s);
                    assert(out@.map_values(|s: String| s@) =~= before.map_values(|s: String| s@).push(v@));
                },
                None => {},
            }
        }
        i = i + 1;
    }
    assert(all.subrange(0, ls.len() as int) == all);
    SchedLatency::WaitSumMillis(out)
}

} // verus!

verus! {

// ---------------------------------------------------------------------------
// /proc/net/snmp and /proc/net/netstat: header line, value line
// ---------------------------------------------------------------------------

/// `(InSegs, OutSegs, RetransSegs)` after the first `n` header/value pairs.
pub open spec fn snmp_assign(h: Seq<Seq<char>>, v: Seq<Seq<char>>, n: int, acc: (u64, u64, u64)) -> (u64, u64, u64)
    decreases n,
{
    if n <= 0 {
        acc
    } else {
        let p = snmp_assign(h, v, n - 1, acc);
        let name = h[n - 1];
        let val = u64_or_zero(v[n - 1]);
        if name == "InSegs"@ {
            (val, p.1, p.2)
        } else if name == "OutSegs"@ {
            (p.0, val, p.2)
        } else if name == "RetransSegs"@ {
            (p.0, p.1, val)
        } else {
            p
        }
    }
}

/// Scan lines from `k`: each line starting with `prefix` is a header line
/// whose next line holds the values; both are consumed, and when they have
/// as many fields the pairs are applied.
pub open spec fn snmp_scan(ls: Seq<Seq<char>>, k: int, acc: (u64, u64, u64)) -> (u64, u64, u64)
    decreases ls.len() - k,
{
    if k < 0 || k >= ls.len() {
        acc
    } else if starts_with(ls[k], "Tcp:"@) {
        if k + 1 < ls.len() {
            let h = tokens(ls[k]);
            let v = tokens(ls[k + 1]);
            let a = if h.len() == v.len() { snmp_assign(h, v, h.len() as int, acc) } else { acc };
            snmp_scan(ls, k + 2, a)
        } else {
            acc
        }
    } else {
        snmp_scan(ls, k + 1, acc)
    }
}

/// TCP segment counters from the text of `/proc/net/snmp`:
/// `(InSegs, OutSegs, RetransSegs)`.
pub fn parse_proc_net_snmp(content: Option<&str>) -> (r: (u64, u64, u64))
    ensures
        r == snmp_scan(file_lines(content), 0, (0, 0, 0)),
{
    let ls = read_lines(content);
    let ghost all = views(ls@);
    let mut acc: (u64, u64, u64) = (0, 0, 0);
    let mut k: usize = 0;
    while k < ls.len()
        invariant
            all == views(ls@),
            all == file_lines(content),
            all.len() == ls.len(),
            0 <= k <= ls.len(),
            snmp_scan(all, k as int, acc) == snmp_scan(all, 0, (0, 0, 0)),
        decreases ls.len() - k,
    {
        proof {
            lemma_views_index(ls@, k as int);
        }
        if starts_with_str(&ls[k], "Tcp:") {
            if k + 1 < ls.len() {
                proof {
                    lemma_views_index(ls@, k + 1);
                }
                let h = split_tokens(&ls[k]);
                let v = split_tokens(&ls[k + 1]);
                if h.len() == v.len() {
                    let ghost start = acc;
                    let mut j: usize = 0;
                    while j < h.len()
                        invariant
                            h.len() == v.len(),
                            0 <= j <= h.len(),
                            acc == snmp_assign(views(h@), views(v@), j as int, start),
                        decreases h.len() - j,
                    {
                        proof {
                            lemma_views_index(h@, j as int);
                            lemma_views_index(v@, j as int);
                        }
                        let val = parse_u64_or_zero(&v[j]);
                        if chars_eq_str(&h[j], "InSegs") {
                            acc = (val, acc.1, acc.2);
                        } else if chars_eq_str(&h[j], "OutSegs") {
                            acc = (acc.0, val, acc.2);
                        } else if chars_eq_str(&h[j], "RetransSegs") {
                            acc = (acc.0, acc.1, val);
                        }
                        j = j + 1;
                    }
                }
                k = k + 2;
            } else {
                return acc;
            }
        } else {
            k = k + 1;
        }
    }
    acc
}

/// `(TCPDuplicateAcks, TCPOFOQueue, zero-window events)` after the first `n`
/// pairs; `TCPWantZeroWindowAdv` and `TCPRcvPruned` add up (wrapping).
pub open spec fn netstat_assign(h: Seq<Seq<char>>, v: Seq<Seq<char>>, n: int, acc: (u64, u64, u64)) -> (u64, u64, u64)
    decreases n,
{
    if n <= 0 {
        acc
    } else {
        let p = netstat_assign(h, v, n - 1, acc);
        let name = h[n - 1];
        let val = u64_or_zero(v[n - 1]);
        if name == "TCPDuplicateAcks"@ {
            (val, p.1, p.2)
        } else if name == "TCPOFOQueue"@ {
            (p.0, val, p.2)
        } else if name == "TCPWantZeroWindowAdv"@ || name == "TCPRcvPruned"@ {
            (p.0, p.1, ((p.2 + val) % 0x1_0000_0000_0000_0000) as u64)
        } else {
            p
        }
    }
}

/// As [`snmp_scan`], for `TcpExt:` header lines.
pub open spec fn netstat_scan(ls: Seq<Seq<char>>, k: int, acc: (u64, u64, u64)) -> (u64, u64, u64)
    decreases ls.len() - k,
{
    if k < 0 || k >= ls.len() {
        acc
    } else if starts_with(ls[k], "TcpExt:"@) {
        if k + 1 < ls.len() {
            let h = tokens(ls[k]);
            let v = tokens(ls[k + 1]);
            let a = if h.len() == v.len() { netstat_assign(h, v, h.len() as int, acc) } else { acc };
            netstat_scan(ls, k + 2, a)
        } else {
            acc
        }
    } else {
        netstat_scan(ls, k + 1, acc)
    }
}

/// Extended TCP counters from the text of `/proc/net/netstat`:
/// `(duplicate_acks, out_of_order_queued, zero_window_events)`.
pub fn parse_proc_net_netstat(content: Option<&str>) -> (r: (u64, u64, u64))
    ensures
        r == netstat_scan(file_lines(content), 0, (0, 0, 0)),
{
    let ls = read_lines(content);
    let ghost all = views(ls@);
    let mut acc: (u64, u64, u64) = (0, 0, 0);
    let mut k: usize = 0;
    while k < ls.len()
        invariant
            all == views(ls@),
            all == file_lines(content),
            all.len() == ls.len(),
            0 <= k <= ls.len(),
            netstat_scan(all, k as int, acc) == netstat_scan(all, 0, (0, 0, 0)),
        decreases ls.len() - k,
    {
        proof {
            lemma_views_index(ls@, k as int);
        }
        if starts_with_str(&ls[k], "TcpExt:") {
            if k + 1 < ls.len() {
                proof {
                    lemma_views_index(ls@, k + 1);
                }
                let h = split_tokens(&ls[k]);
                let v = split_tokens(&ls[k + 1]);
                if h.len() == v.len() {
                    let ghost start = acc;
                    let mut j: usize = 0;
                    while j < h.len()
                        invariant
                            h.len() == v.len(),
                            0 <= j <= h.len(),
                            acc == netstat_assign(views(h@), views(v@), j as int, start),
                        decreases h.len() - j,
                    {
                        proof {
                            lemma_views_index(h@, j as int);
                            lemma_views_index(v@, j as int);
                        }
                        let val = parse_u64_or_zero(&v[j]);
                        if chars_eq_str(&h[j], "TCPDuplicateAcks") {
                            acc = (val, acc.1, acc.2);
                        } else if chars_eq_str(&h[j], "TCPOFOQueue") {
                            acc = (acc.0, val, acc.2);
                        } else if chars_eq_str(&h[j], "TCPWantZeroWindowAdv") || chars_eq_str(&h[j], "TCPRcvPruned") {
                            acc = (acc.0, acc.1, acc.2.wrapping_add(val));
                        }
                        j = j + 1;
                    }
                }
                k = k + 2;
            } else {
                return acc;
            }
        } else {
            k = k + 1;
        }
    }
    acc
}

// ---------------------------------------------------------------------------
// /proc/net/dev
// ---------------------------------------------------------------------------

/// The statistics fields of an interface line other than loopback.
pub open spec fn dev_stats(l: Seq<char>) -> Option<Seq<Seq<char>>> {
    if contains(l, ":"@) {
        let parts = split_on(l, ':');
        if trim(parts[0]) == "lo"@ { None } else { Some(tokens(parts[1])) }
    } else {
        None
    }
}

/// Every interface line with at least eight fields has at least ten (the
/// parser reads fields 8 and 9 of such lines).
pub open spec fn dev_lines_complete(ls: Seq<Seq<char>>) -> bool {
    forall|i: int| 0 <= i < ls.len() ==> (#[trigger] dev_stats(ls[i]) matches Some(st) ==> (st.len() >= 8
        ==> st.len() >= 10))
}

/// `(rx_bytes, rx_packets, tx_bytes, tx_packets)` summed over the non-loopback
/// interfaces (wrapping).
pub open spec fn dev_fold(ls: Seq<Seq<char>>) -> (u64, u64, u64, u64)
    decreases ls.len(),
{
    if ls.len() == 0 {
        (0, 0, 0, 0)
    } else {
        let p = dev_fold(ls.drop_last());
        match dev_stats(ls.last()) {
            Some(st) => if st.len() >= 8 {
                (
                    ((p.0 + u64_or_zero(st[0])) % 0x1_0000_0000_0000_0000) as u64,
                    ((p.1 + u64_or_zero(st[1])) % 0x1_0000_0000_0000_0000) as u64,
                    ((p.2 + u64_or_zero(st[8])) % 0x1_0000_0000_0000_0000) as u64,
                    ((p.3 + u64_or_zero(st[9])) % 0x1_0000_0000_0000_0000) as u64,
                )
            } else {
                p
            },
            None => p,
        }
    }
}

fn dev_stats_exec(l: &Vec<char>) -> (r: Option<Vec<Vec<char>>>)
    ensures
        match r {
            Some(st) => dev_stats(l@) == Some(views(st@)),
            None => dev_stats(l@) is None,
        },
{
    if contains_str(l, ":") {
        let parts = split_char(l, ':');
        proof {
            lemma_views_index(parts@, 0);
        }
        let iface = trim_chars(&parts[0]);
        if chars_eq_str(&iface, "lo") {
            None
        } else {
            assert(parts@.len() >= 2) by {
                lemma_colon_splits(l@);
            }
            proof {
                lemma_views_index(parts@, 1);
            }
            Some(split_tokens(&parts[1]))
        }
    } else {
        None
    }
}

proof fn lemma_colon_splits(l: Seq<char>)
    requires
        contains(l, ":"@),
    ensures
        split_on(l, ':').len() >= 2,
{
    reveal_strlit(":");
    let i = choose|i: int| crate::text::contains_at(l, ":"@, i);
    assert(l[i] == ':') by {
        assert(l.subrange(i, i + 1)[0] == ":"@[0]);
    }
    crate::text::lemma_find_from(l, ':', 0);
    let j = crate::text::find_from(l, ':', 0);
    if j >= l.len() {
        assert(l[i] != ':');
    } else {
        crate::text::lemma_split_from_nonempty(l, ':', j + 1);
    }
}

/// Whether every interface line with eight fields or more has ten (see
/// [`dev_lines_complete`]); the parser needs this.
pub fn net_dev_lines_complete(content: Option<&str>) -> (r: bool)
    ensures
        r == dev_lines_complete(file_lines(content)),
{
    let ls = read_lines(content);
    let ghost all = views(ls@);
    let mut i: usize = 0;
    while i < ls.len()
        invariant
            all == views(ls@),
            all == file_lines(content),
            0 <= i <= ls.len(),
            forall|j: int| 0 <= j < i ==> (#[trigger] dev_stats(all[j]) matches Some(st) ==> (st.len() >= 8
                ==> st.len() >= 10)),
        decreases ls.len() - i,
    {
        proof {
            lemma_views_index(ls@, i as int);
        }
        match dev_stats_exec(&ls[i]) {
            Some(st) => {
                if st.len() >= 8 && st.len() < 10 {
                    assert(!dev_lines_complete(all)) by {
                        assert(dev_stats(all[i as int]) == Some(views(st@)));
                    }
                    return false;
                }
            },
            None => {},
        }
        i = i + 1;
    }
    true
}

/// Interface traffic from the text of `/proc/net/dev`, summed over every
/// interface but loopback: `(rx_bytes, rx_packets, tx_bytes, tx_packets)`.
pub fn parse_proc_net_dev(content: Option<&str>) -> (r: (u64, u64, u64, u64))
    requires
        dev_lines_complete(file_lines(content)),
    ensures
        r == dev_fold(file_lines(content)),
{
    let ls = read_lines(content);
    let ghost all = views(ls@);
    let mut acc: (u64, u64, u64, u64) = (0, 0, 0, 0);
    let mut i: usize = 0;
    while i < ls.len()
        invariant
            all == views(ls@),
            dev_lines_complete(all),
            0 <= i <= ls.len(),
            acc == dev_fold(all.subrange(0, i as int)),
        decreases ls.len() - i,
    {
        proof {
            lemma_views_take(ls@, i as int);
            lemma_views_index(ls@, i as int);
        }
        match dev_stats_exec(&ls[i]) {
            Some(st) => {
                if st.len() >= 8 {
                    assert(dev_stats(all[i as int]) matches Some(x) && x.len() >= 8);
                    proof {
                        lemma_views_index(st@, 0);
                        lemma_views_index(st@, 1);
                        lemma_views_index(st@, 8);
                        lemma_views_index(st@, 9);
                    }
                    acc = (
                        acc.0.wrapping_add(parse_u64_or_zero(&st[0])),
                        acc.1.wrapping_add(parse_u64_or_zero(&st[1])),
                        acc.2.wrapping_add(parse_u64_or_zero(&st[8])),
                        acc.3.wrapping_add(parse_u64_or_zero(&st[9])),
                    );
                }
            },
            None => {},
        }
        i = i + 1;
    }
    assert(all.subrange(0, ls.len() as int) == all);
    acc
}

// ---------------------------------------------------------------------------
// `adb devices`
// ---------------------------------------------------------------------------

/// The serials of attached devices in the output of `adb devices`: the first
/// field of each line made of exactly two fields, the second being `device`.
pub open spec fn adb_serials(ls: Seq<Seq<char>>) -> Seq<Seq<char>>
    decreases ls.len(),
{
    if ls.len() == 0 {
        Seq::empty()
    } else {
        let p = adb_serials(ls.drop_last());
        let t = tokens(ls.last());
        if t.len() == 2 && t[1] == "device"@ { p.push(t[0]) } else { p }
    }
}

/// Serials of the devices listed as `device` by `adb devices`.
pub fn adb_device_serials(output: &str) -> (r: Vec<String>)
    ensures
        r@.map_values(|s: String| s@) == adb_serials(lines(output@)),
{
    let ls = read_lines(Some(output));
    let ghost all = views(ls@);
    let mut out: Vec<String> = Vec::new();
    let mut i: usize = 0;
    while i < ls.len()
        invariant
            all == views(ls@),
            0 <= i <= ls.len(),
            out@.map_values(|s: String| s@) == adb_serials(all.subrange(0, i as int)),
        decreases ls.len() - i,
    {
        proof {
            lemma_views_take(ls@, i as int);
        }
        let t = split_tokens(&ls[i]);
        if t.len() == 2 {
            proof {
                lemma_views_index(t@, 0);
                lemma_views_index(t@, 1);
            }
            if chars_eq_str(&t[1], "device") {
                let s = string_of(&t[0]);
                let ghost before = out@;
                out.push(s);
                assert(out@.map_values(|s: String| s@) =~= before.map_values(|s: String| s@).push(t@[0]@));
            }
        }
        i = i + 1;
    }
    assert(all.subrange(0, ls.len() as int) == all);
    out
}

} // verus!

verus! {

// ---------------------------------------------------------------------------
// Counter snapshots of this process and their deltas
// ---------------------------------------------------------------------------

/// CPU time counters of the first line of `/proc/stat`, in ticks.
#[derive(Debug, Clone, Copy, PartialEq, Eq, Structural)]
pub struct CpuTicks {
    pub user: u64,
    pub nice: u64,
    pub system: u64,
    pub idle: u64,
    pub iowait: u64,
    pub irq: u64,
    pub softirq: u64,
    pub steal: u64,
}

/// The kernel counters of this process at one moment.
#[derive(Debug, Clone, Copy, PartialEq, Eq, Structural)]
pub struct LinuxCounters {
    /// The text of `/proc/self/stat` was empty (or could not be read).
    pub empty_stat: bool,
    pub minor_faults: u64,
    pub major_faults: u64,
    pub voluntary_ctxt_switches: u64,
    pub involuntary_ctxt_switches: u64,
    pub bytes_read: u64,
    pub bytes_written: u64,
    pub cpu_migrations: u64,
    /// System CPU ticks, when known.
    pub cpu: Option<CpuTicks>,
    pub interrupt_count: u64,
}

/// `(read_bytes, write_bytes)` of `/proc/self/io`, last line of each key counting.
pub open spec fn io_rw_fold(ls: Seq<Seq<char>>) -> (u64, u64)
    decreases ls.len(),
{
    if ls.len() == 0 {
        (0, 0)
    } else {
        let p = io_rw_fold(ls.drop_last());
        let l = ls.last();
        if starts_with(l, "read_bytes:"@) {
            (field_u64(l, 1), p.1)
        } else if starts_with(l, "write_bytes:"@) {
            (p.0, field_u64(l, 1))
        } else {
            p
        }
    }
}

/// The eight tick counters of the first line of `/proc/stat`, when it has
/// more than eight fields; all zero otherwise.
pub open spec fn cpu_ticks_of(ls: Seq<Seq<char>>) -> CpuTicks {
    let p = if ls.len() > 0 { tokens(ls[0]) } else { Seq::empty() };
    if p.len() > 8 {
        CpuTicks {
            user: u64_or_zero(p[1]),
            nice: u64_or_zero(p[2]),
            system: u64_or_zero(p[3]),
            idle: u64_or_zero(p[4]),
            iowait: u64_or_zero(p[5]),
            irq: u64_or_zero(p[6]),
            softirq: u64_or_zero(p[7]),
            steal: u64_or_zero(p[8]),
        }
    } else {
        CpuTicks { user: 0, nice: 0, system: 0, idle: 0, iowait: 0, irq: 0, softirq: 0, steal: 0 }
    }
}

/// The counters read from the texts of `/proc/self/stat`, `/proc/self/status`,
/// `/proc/self/io`, `/proc/self/sched` and `/proc/stat` (`None` for a file
/// that could not be read).
pub open spec fn linux_counters(
    stat: Option<&str>,
    status: Option<&str>,
    io: Option<&str>,
    sched: Option<&str>,
    proc_stat: Option<&str>,
) -> LinuxCounters {
    let f = stat_faults(stat);
    let sw = switches_fold(file_lines(status));
    let rw = io_rw_fold(file_lines(io));
    LinuxCounters {
        empty_stat: match stat {
            Some(s) => s@.len() == 0,
            None => true,
        },
        minor_faults: f.0,
        major_faults: f.1,
        voluntary_ctxt_switches: sw.0,
        involuntary_ctxt_switches: sw.1,
        bytes_read: rw.0,
        bytes_written: rw.1,
        cpu_migrations: migrations_fold(file_lines(sched)),
        cpu: Some(cpu_ticks_of(file_lines(proc_stat))),
        interrupt_count: first_prefixed_field(file_lines(proc_stat), "intr "@),
    }
}

fn parse_io_rw(content: Option<&str>) -> (r: (u64, u64))
    ensures
        r == io_rw_fold(file_lines(content)),
{
    let ls = read_lines(content);
    let ghost all = views(ls@);
    let mut acc: (u64, u64) = (0, 0);
    let mut i: usize = 0;
    while i < ls.len()
        invariant
            all == views(ls@),
            0 <= i <= ls.len(),
            acc == io_rw_fold(all.subrange(0, i as int)),
        decreases ls.len() - i,
    {
        proof {
            lemma_views_take(ls@, i as int);
        }
        let l = &ls[i];
        if starts_with_str(l, "read_bytes:") {
            acc = (field_u64_exec(l, 1), acc.1);
        } else if starts_with_str(l, "write_bytes:") {
            acc = (acc.0, field_u64_exec(l, 1));
        }
        i = i + 1;
    }
    assert(all.subrange(0, ls.len() as int) == all);
    acc
}

fn parse_cpu_ticks(content: Option<&str>) -> (r: CpuTicks)
    ensures
        r == cpu_ticks_of(file_lines(content)),
{
    let ls = read_lines(content);
    let zero = CpuTicks { user: 0, nice: 0, system: 0, idle: 0, iowait: 0, irq: 0, softirq: 0, steal: 0 };
    if ls.len() == 0 {
        return zero;
    }
    proof {
        lemma_views_index(ls@, 0);
    }
    let p = split_tokens(&ls[0]);
    if p.len() > 8 {
        proof {
            lemma_views_index(p@, 1);
            lemma_views_index(p@, 2);
            lemma_views_index(p@, 3);
            lemma_views_index(p@, 4);
            lemma_views_index(p@, 5);
            lemma_views_index(p@, 6);
            lemma_views_index(p@, 7);
            lemma_views_index(p@, 8);
        }
        CpuTicks {
            user: parse_u64_or_zero(&p[1]),
            nice: parse_u64_or_zero(&p[2]),
            system: parse_u64_or_zero(&p[3]),
            idle: parse_u64_or_zero(&p[4]),
            iowait: parse_u64_or_zero(&p[5]),
            irq: parse_u64_or_zero(&p[6]),
            softirq: parse_u64_or_zero(&p[7]),
            steal: parse_u64_or_zero(&p[8]),
        }
    } else {
        zero
    }
}

/// Read the counters of this process from the texts of its `/proc` files
/// (`None` for a file that could not be read).
pub fn parse_linux_counters(
    stat: Option<&str>,
    status: Option<&str>,
    io: Option<&str>,
    sched: Option<&str>,
    proc_stat: Option<&str>,
) -> (r: LinuxCounters)
    ensures
        r == linux_counters(stat, status, io, sched, proc_stat),
{
    let mem = parse_self_memory_stats(None, stat);
    let sw = parse_self_status_switches(status);
    let rw = parse_io_rw(io);
    let empty_stat = match stat {
        Some(s) => s.unicode_len() == 0,
        None => true,
    };
    LinuxCounters {
        empty_stat,
        minor_faults: mem.5,
        major_faults: mem.6,
        voluntary_ctxt_switches: sw.0,
        involuntary_ctxt_switches: sw.1,
        bytes_read: rw.0,
        bytes_written: rw.1,
        cpu_migrations: parse_self_sched_migrations(sched),
        cpu: Some(parse_cpu_ticks(proc_stat)),
        interrupt_count: first_prefixed_field_exec(proc_stat, "intr "),
    }
}

/// `a - b`, or 0 when `b` is larger.
pub open spec fn sat_sub(a: u64, b: u64) -> u64 {
    if a >= b { (a - b) as u64 } else { 0 }
}

/// `a + b`, wrapping as in a release build.
pub open spec fn wrap_add(a: u64, b: u64) -> u64 {
    if a + b > u64::MAX { (a + b - 0x1_0000_0000_0000_0000) as u64 } else { (a + b) as u64 }
}

/// How much each counter grew between two snapshots.
#[derive(Debug, Clone, Copy, PartialEq, Eq, Structural)]
pub struct LinuxDeltas {
    pub voluntary_ctxt_switches: u64,
    pub involuntary_ctxt_switches: u64,
    pub cpu_migrations: u64,
    pub minor_faults: u64,
    pub major_faults: u64,
    /// Minor plus major faults.
    pub page_faults: u64,
    pub bytes_read: u64,
    pub bytes_written: u64,
    pub interrupts: u64,
    /// Tick deltas, when both snapshots carry ticks.
    pub cpu: Option<CpuTicks>,
    /// The sum of the tick deltas (0 without ticks).
    pub cpu_total: u64,
}

/// The growth of each tick counter (never negative).
pub open spec fn tick_deltas(b: CpuTicks, a: CpuTicks) -> CpuTicks {
    CpuTicks {
        user: sat_sub(a.user, b.user),
        nice: sat_sub(a.nice, b.nice),
        system: sat_sub(a.system, b.system),
        idle: sat_sub(a.idle, b.idle),
        iowait: sat_sub(a.iowait, b.iowait),
        irq: sat_sub(a.irq, b.irq),
        softirq: sat_sub(a.softirq, b.softirq),
        steal: sat_sub(a.steal, b.steal),
    }
}

/// The sum of the tick counters (wrapping).
pub open spec fn tick_total(d: CpuTicks) -> u64 {
    wrap_add(
        wrap_add(wrap_add(wrap_add(wrap_add(wrap_add(wrap_add(d.user, d.nice), d.system), d.idle), d.iowait), d.irq), d.softirq),
        d.steal,
    )
}

/// The growth of every counter from `b` to `a` (never negative).
pub open spec fn deltas_between(b: LinuxCounters, a: LinuxCounters) -> LinuxDeltas {
    let cpu = match (b.cpu, a.cpu) {
        (Some(x), Some(y)) => Some(tick_deltas(x, y)),
        _ => None,
    };
    LinuxDeltas {
        voluntary_ctxt_switches: sat_sub(a.voluntary_ctxt_switches, b.voluntary_ctxt_switches),
        involuntary_ctxt_switches: sat_sub(a.involuntary_ctxt_switches, b.involuntary_ctxt_switches),
        cpu_migrations: sat_sub(a.cpu_migrations, b.cpu_migrations),
        minor_faults: sat_sub(a.minor_faults, b.minor_faults),
        major_faults: sat_sub(a.major_faults, b.major_faults),
        page_faults: wrap_add(sat_sub(a.minor_faults, b.minor_faults), sat_sub(a.major_faults, b.major_faults)),
        bytes_read: sat_sub(a.bytes_read, b.bytes_read),
        bytes_written: sat_sub(a.bytes_written, b.bytes_written),
        interrupts: sat_sub(a.interrupt_count, b.interrupt_count),
        cpu,
        cpu_total: match cpu {
            Some(d) => tick_total(d),
            None => 0,
        },
    }
}

fn ticks_delta(b: &CpuTicks, a: &CpuTicks) -> (d: CpuTicks)
    ensures
        d == tick_deltas(*b, *a),
{
    CpuTicks {
        user: a.user.saturating_sub(b.user),
        nice: a.nice.saturating_sub(b.nice),
        system: a.system.saturating_sub(b.system),
        idle: a.idle.saturating_sub(b.idle),
        iowait: a.iowait.saturating_sub(b.iowait),
        irq: a.irq.saturating_sub(b.irq),
        softirq: a.softirq.saturating_sub(b.softirq),
        steal: a.steal.saturating_sub(b.steal),
    }
}

fn ticks_total(d: &CpuTicks) -> (t: u64)
    ensures
        t == tick_total(*d),
{
    let t1 = d.user.wrapping_add(d.nice);
    let t2 = t1.wrapping_add(d.system);
    let t3 = t2.wrapping_add(d.idle);
    let t4 = t3.wrapping_add(d.iowait);
    let t5 = t4.wrapping_add(d.irq);
    let t6 = t5.wrapping_add(d.softirq);
    t6.wrapping_add(d.steal)
}

/// The growth of every counter between two snapshots; `None` (nothing to
/// compare) when either snapshot is missing or the earlier one read an
/// empty `/proc/self/stat`.
pub fn linux_deltas(before: Option<&LinuxCounters>, after: Option<&LinuxCounters>) -> (r: Option<LinuxDeltas>)
    ensures
        match (before, after) {
            (Some(b), Some(a)) => if b.empty_stat { r is None } else { r == Some(deltas_between(*b, *a)) },
            _ => r is None,
        },
{
    let (b, a) = match (before, after) {
        (Some(b), Some(a)) => (b, a),
        _ => {
            return None;
        },
    };
    if b.empty_stat {
        return None;
    }
    let cpu = match (&b.cpu, &a.cpu) {
        (Some(x), Some(y)) => Some(ticks_delta(x, y)),
        _ => None,
    };
    let cpu_total = match &cpu {
        Some(d) => ticks_total(d),
        None => 0,
    };
    let minor = a.minor_faults.saturating_sub(b.minor_faults);
    let major = a.major_faults.saturating_sub(b.major_faults);
    Some(LinuxDeltas {
        voluntary_ctxt_switches: a.voluntary_ctxt_switches.saturating_sub(b.voluntary_ctxt_switches),
        involuntary_ctxt_switches: a.involuntary_ctxt_switches.saturating_sub(b.involuntary_ctxt_switches),
        cpu_migrations: a.cpu_migrations.saturating_sub(b.cpu_migrations),
        minor_faults: minor,
        major_faults: major,
        page_faults: minor.wrapping_add(major),
        bytes_read: a.bytes_read.saturating_sub(b.bytes_read),
        bytes_written: a.bytes_written.saturating_sub(b.bytes_written),
        interrupts: a.interrupt_count.saturating_sub(b.interrupt_count),
        cpu,
        cpu_total,
    })
}

/// A snapshot compared with itself shows no growth.
pub proof fn law_deltas_of_same_snapshot(c: LinuxCounters)
    ensures
        ({
            let d = deltas_between(c, c);
            &&& d.voluntary_ctxt_switches == 0 && d.involuntary_ctxt_switches == 0
            &&& d.cpu_migrations == 0 && d.page_faults == 0
            &&& d.bytes_read == 0 && d.bytes_written == 0 && d.interrupts == 0
            &&& d.cpu_total == 0
        }),
{
}

} // verus!

verus! {

// ---------------------------------------------------------------------------
// `ss -t -i -n state established`
// ---------------------------------------------------------------------------

/// The first index from `k` on where `p` occurs in `s`, or `s.len()`.
pub open spec fn first_match(s: Seq<char>, p: Seq<char>, k: int) -> int
    decreases s.len() - k,
{
    if k < 0 || k >= s.len() {
        s.len() as int
    } else if crate::text::contains_at(s, p, k) {
        k
    } else {
        first_match(s, p, k + 1)
    }
}

proof fn lemma_first_match(s: Seq<char>, p: Seq<char>, k: int)
    requires
        0 <= k <= s.len(),
    ensures
        k <= first_match(s, p, k) <= s.len(),
        first_match(s, p, k) < s.len() ==> crate::text::contains_at(s, p, first_match(s, p, k)),
    decreases s.len() - k,
{
    if k < s.len() && !crate::text::contains_at(s, p, k) {
        lemma_first_match(s, p, k + 1);
    }
}

/// The first word after the first occurrence of `key` (empty when there is
/// no word after it); `None` when `key` does not occur.
pub open spec fn word_after(s: Seq<char>, key: Seq<char>) -> Option<Seq<char>> {
    let i = first_match(s, key, 0);
    if i < s.len() {
        let t = tokens(s.subrange(i + key.len(), s.len() as int));
        Some(if t.len() > 0 { t[0] } else { Seq::empty() })
    } else {
        None
    }
}

/// A number after `key`, or `default` when missing or no number.
pub open spec fn number_after(s: Seq<char>, key: Seq<char>, default: u64) -> u64 {
    match word_after(s, key) {
        Some(w) => match parse_unsigned(w, 10, u64::MAX as int) {
            Some(n) => n as u64,
            None => default,
        },
        None => default,
    }
}

/// What `ss` reports of one TCP connection.
#[derive(Debug, PartialEq, Eq)]
pub struct SsConnection {
    pub recv_q: u64,
    pub send_q: u64,
    /// The round-trip time text after `rtt:` (its part before a `/`), when
    /// reported; it is a decimal number of milliseconds.
    pub rtt_text: Option<String>,
    /// Congestion window (10 when not reported).
    pub cwnd: u64,
    /// Receive space (14600 when not reported).
    pub rcv_space: u64,
}

/// The connection read from a connection line and its info line.
pub open spec fn ss_info(line: Seq<char>, info: Seq<char>) -> (u64, u64, Option<Seq<char>>, u64, u64) {
    let parts = tokens(line);
    let rtt = match word_after(info, "rtt:"@) {
        Some(w) => Some(split_on(w, '/')[0]),
        None => None,
    };
    let rcv = if first_match(info, "rcvspace:"@, 0) < info.len() {
        number_after(info, "rcvspace:"@, 14600)
    } else {
        number_after(info, "rcv_space:"@, 14600)
    };
    (u64_or_zero(parts[1]), u64_or_zero(parts[2]), rtt, number_after(info, "cwnd:"@, 10), rcv)
}

/// The first line from `k` on that mentions `port_text` and has at least
/// five words, read with the line after it; `None` when there is none or it
/// is the last line.
pub open spec fn ss_scan(ls: Seq<Seq<char>>, port_text: Seq<char>, k: int) -> Option<(u64, u64, Option<Seq<char>>, u64, u64)>
    decreases ls.len() - k,
{
    if k < 0 || k >= ls.len() {
        None
    } else if crate::text::contains(ls[k], port_text) && tokens(ls[k]).len() >= 5 {
        if k + 1 < ls.len() { Some(ss_info(ls[k], ls[k + 1])) } else { None }
    } else {
        ss_scan(ls, port_text, k + 1)
    }
}

fn first_match_exec(v: &Vec<char>, p: &str) -> (r: usize)
    ensures
        r as int == first_match(v@, p@, 0),
{
    let pv = chars_of(p);
    let mut i: usize = 0;
    while i < v.len()
        invariant
            pv@ == p@,
            0 <= i <= v.len(),
            first_match(v@, p@, i as int) == first_match(v@, p@, 0),
        decreases v.len() - i,
    {
        if crate::text::matches_at(v, &pv, i) {
            return i;
        }
        i = i + 1;
    }
    i
}

fn word_after_exec(v: &Vec<char>, key: &str) -> (r: Option<Vec<char>>)
    ensures
        match r {
            Some(w) => word_after(v@, key@) == Some(w@),
            None => word_after(v@, key@) is None,
        },
{
    let i = first_match_exec(v, key);
    if i < v.len() {
        let kl = chars_of(key).len();
        proof {
            lemma_first_match(v@, key@, 0);
        }
        let rest = slice_chars(v, i + kl, v.len());
        let t = split_tokens(&rest);
        if t.len() > 0 {
            proof {
                lemma_views_index(t@, 0);
            }
            Some(slice_chars(&t[0], 0, t[0].len()))
        } else {
            Some(Vec::new())
        }
    } else {
        None
    }
}

fn number_after_exec(v: &Vec<char>, key: &str, default: u64) -> (r: u64)
    ensures
        r == number_after(v@, key@, default),
{
    match word_after_exec(v, key) {
        Some(w) => match parse_u64(&w) {
            Some(n) => n,
            None => default,
        },
        None => default,
    }
}

/// The connection on `port` in the output of `ss -t -i -n state established`:
/// the first line mentioning `:port` with at least five fields, read with
/// the info line after it.
pub fn parse_ss_connection(output: &str, port: u16) -> (r: Option<SsConnection>)
    ensures
        ({
            let port_text = ":"@ + crate::text::decimal(port as nat);
            match r {
                Some(c) => ss_scan(lines(output@), port_text, 0) == Some((
                    c.recv_q,
                    c.send_q,
                    match c.rtt_text {
                        Some(t) => Some(t@),
                        None => None,
                    },
                    c.cwnd,
                    c.rcv_space,
                )),
                None => ss_scan(lines(output@), port_text, 0) is None,
            }
        }),
{
    let mut pt: Vec<char> = Vec::new();
    crate::text::push_str(&mut pt, ":");
    crate::text::push_decimal(&mut pt, port as u64);
    let port_text = string_of(&pt);
    let ls = read_lines(Some(output));
    let ghost all = views(ls@);
    let mut k: usize = 0;
    while k < ls.len()
        invariant
            all == views(ls@),
            all == lines(output@),
            all.len() == ls.len(),
            port_text@ == ":"@ + crate::text::decimal(port as nat),
            0 <= k <= ls.len(),
            ss_scan(all, port_text@, k as int) == ss_scan(all, port_text@, 0),
        decreases ls.len() - k,
    {
        proof {
            lemma_views_index(ls@, k as int);
        }
        let parts = split_tokens(&ls[k]);
        if contains_str(&ls[k], port_text.as_str()) && parts.len() >= 5 {
            if k + 1 < ls.len() {
                proof {
                    lemma_views_index(ls@, k + 1);
                    lemma_views_index(parts@, 1);
                    lemma_views_index(parts@, 2);
                }
                let info = &ls[k + 1];
                let rtt_text = match word_after_exec(info, "rtt:") {
                    Some(w) => {
                        let pieces = split_char(&w, '/');
                        proof {
                            lemma_views_index(pieces@, 0);
                        }
                        Some(string_of(&pieces[0]))
                    },
                    None => None,
                };
                let rcv_space = if first_match_exec(info, "rcvspace:") < info.len() {
                    number_after_exec(info, "rcvspace:", 14600)
                } else {
                    number_after_exec(info, "rcv_space:", 14600)
                };
                return Some(SsConnection {
                    recv_q: parse_u64_or_zero(&parts[1]),
                    send_q: parse_u64_or_zero(&parts[2]),
                    rtt_text,
                    cwnd: number_after_exec(info, "cwnd:", 10),
                    rcv_space,
                });
            } else {
                return None;
            }
        }
        k = k + 1;
    }
    None
}

} // verus!
