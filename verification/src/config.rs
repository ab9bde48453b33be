use vstd::prelude::*;

verus! {

/// The data path used to move file bytes.
#[derive(Debug, Clone, Copy, PartialEq, Eq, Structural)]
pub enum TransportMode {
    TcpBuffered,
    TcpZeroCopy,
    UdpCustom,
    Quic,
}

/// All tunable transfer parameters.
///
/// Throughput caps are kept in kilobits per second (1 Mbps = 1000 kbps), so
/// that every rule over them is integer arithmetic.
#[derive(Debug, Clone, Copy, PartialEq, Eq, Structural)]
pub struct TuningConfig {
    /// Bytes sent per write call.
    pub chunk_size_bytes: usize,
    /// Number of concurrent TCP streams.
    pub parallel_streams: u32,
    /// Send buffer hint in KB.
    pub send_buffer_kb: u32,
    /// Receive buffer hint in KB.
    pub recv_buffer_kb: u32,
    /// Number of chunks grouped in one write batch.
    pub write_batch_size: usize,
    /// Target worker thread count.
    pub worker_threads: usize,
    /// Optional hard throughput cap in kbps (`None` = unlimited).
    pub throughput_limit_kbps: Option<u64>,
    /// Active data path.
    pub transport_mode: TransportMode,
}

/// Number of logical CPUs available to this process, as `num_cpus::get`
/// reports it.  Nothing is promised of the value: it depends on the machine,
/// its cgroup limits and the thread's affinity mask.
#[verifier::external_body]
pub(crate) fn logical_cpu_count() -> usize {
    num_cpus::get()
}

/// The default configuration once the CPU count is known.
pub open spec fn default_config_with_workers(workers: usize) -> TuningConfig {
    TuningConfig {
        chunk_size_bytes: 1_048_576,
        parallel_streams: 1,
        send_buffer_kb: 4096,
        recv_buffer_kb: 4096,
        write_batch_size: 4,
        worker_threads: workers,
        throughput_limit_kbps: None,
        transport_mode: TransportMode::TcpBuffered,
    }
}

/// The larger of two counts.
pub open spec fn max_usize(a: usize, b: usize) -> usize {
    if a >= b { a } else { b }
}

impl TuningConfig {
    /// The default configuration for a machine with `cpus` logical CPUs:
    /// 1 MB chunks, one stream, 4 MB socket buffers, batches of four writes,
    /// `max(cpus, 2)` workers, no throughput cap, buffered TCP.
    pub fn default_for_cpus(cpus: usize) -> (c: TuningConfig)
        ensures
            c == default_config_with_workers(max_usize(cpus, 2)),
    {
        TuningConfig {
            chunk_size_bytes: 1_048_576,
            parallel_streams: 1,
            send_buffer_kb: 4096,
            recv_buffer_kb: 4096,
            write_batch_size: 4,
            worker_threads: if cpus >= 2 { cpus } else { 2 },
            throughput_limit_kbps: None,
            transport_mode: TransportMode::TcpBuffered,
        }
    }
}

impl Default for TuningConfig {
    /// The default configuration for this machine.
    fn default() -> (c: TuningConfig)
        ensures
            exists|cpus: usize| c == default_config_with_workers(max_usize(cpus, 2)),
    {
        let cpus = logical_cpu_count();
        TuningConfig::default_for_cpus(cpus)
    }
}

} // verus!
