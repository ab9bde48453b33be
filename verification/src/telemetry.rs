use vstd::prelude::*;
use crate::text::{decimal, push_decimal, push_str, string_of};

verus! {

/// A protocol-level event of a transfer.
pub struct ProtocolEvent {
    pub time: String,
    pub event_type: String,
    pub detail: String,
}

/// Counts of protocol messages seen by this node.
#[derive(Debug, Clone, Copy, PartialEq, Eq, Structural)]
pub struct ProtocolCounters {
    pub discovery_packets: u64,
    pub auth_requests: u64,
    pub transfer_requests: u64,
    pub resume_requests: u64,
    pub cancelled_transfers: u64,
    pub completed_transfers: u64,
    pub failed_transfers: u64,
    pub tls_handshakes: u64,
    pub range_requests: u64,
    pub heartbeat_count: u64,
}

impl Default for ProtocolCounters {
    /// All counters at zero.
    fn default() -> (c: ProtocolCounters)
        ensures
            c == (ProtocolCounters {
                discovery_packets: 0,
                auth_requests: 0,
                transfer_requests: 0,
                resume_requests: 0,
                cancelled_transfers: 0,
                completed_transfers: 0,
                failed_transfers: 0,
                tls_handshakes: 0,
                range_requests: 0,
                heartbeat_count: 0,
            }),
    {
        ProtocolCounters {
            discovery_packets: 0,
            auth_requests: 0,
            transfer_requests: 0,
            resume_requests: 0,
            cancelled_transfers: 0,
            completed_transfers: 0,
            failed_transfers: 0,
            tls_handshakes: 0,
            range_requests: 0,
            heartbeat_count: 0,
        }
    }
}

/// The identifier of the `n`-th transfer: `txn_` and the number.
pub fn transfer_id(n: u64) -> (id: String)
    ensures
        id@ == "txn_"@ + decimal(n as nat),
{
    let mut v: Vec<char> = Vec::new();
    push_str(&mut v, "txn_");
    push_decimal(&mut v, n);
    string_of(&v)
}


/// The thermal state read from the output of `pmset -g therm`: `Critical`
/// when it reports a CPU scheduler limit and mentions `Critical`, `Fair`
/// for a limit alone, `Nominal` otherwise.
pub fn pmset_thermal_state(output: &str) -> (s: &'static str)
    ensures
        s@ == if crate::text::contains(output@, "CPU_Scheduler_Limit"@) {
            if crate::text::contains(output@, "Critical"@) { "Critical"@ } else { "Fair"@ }
        } else {
            "Nominal"@
        },
{
    let v = crate::text::chars_of(output);
    if crate::text::contains_str(&v, "CPU_Scheduler_Limit") {
        if crate::text::contains_str(&v, "Critical") { "Critical" } else { "Fair" }
    } else {
        "Nominal"
    }
}

/// Entries kept in the operation log.
pub open spec fn operation_log_cap() -> nat {
    500
}

/// Append an entry to the operation log, dropping the oldest one once the
/// log holds its five hundred entries.
pub fn record_log<T>(logs: &mut Vec<T>, entry: T)
    ensures
        final(logs)@ == crate::transfer::pushed_bounded(old(logs)@, entry, operation_log_cap()),
{
    crate::transfer::push_bounded(logs, entry, 500);
}


/// The base name of a benchmark's report files: `benchmark_`, the start
/// time stamp, the direction and the file name with every `/` and `\\`
/// made `_`, joined by `_`.
pub fn benchmark_base_name(timestamp: &str, direction: &str, filename: &str) -> (r: String)
    ensures
        r@ == "benchmark_"@ + timestamp@ + "_"@ + direction@ + "_"@
            + crate::dashboard::replace_char(crate::dashboard::replace_char(filename@, '/', '_'), '\\', '_'),
{
    let v = crate::text::chars_of(filename);
    let mut safe: Vec<char> = Vec::new();
    let mut i: usize = 0;
    while i < v.len()
        invariant
            0 <= i <= v.len(),
            safe@ == crate::dashboard::replace_char(crate::dashboard::replace_char(v@, '/', '_'), '\\', '_').subrange(0, i as int),
        decreases v.len() - i,
    {
        let c = v[i];
        safe.push(if c == '/' || c == '\\' { '_' } else { c });
        i = i + 1;
    }
    let mut out: Vec<char> = Vec::new();
    push_str(&mut out, "benchmark_");
    push_str(&mut out, timestamp);
    push_str(&mut out, "_");
    push_str(&mut out, direction);
    push_str(&mut out, "_");
    crate::text::push_chars(&mut out, &safe);
    string_of(&out)
}

} // verus!
