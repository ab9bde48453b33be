use vstd::prelude::*;
use vstd::string::StringExecFns;
use crate::bottleneck::Bottleneck;
use crate::config::{TransportMode, TuningConfig};
use crate::text::{decimal, digit_char, digit_to_char, push_decimal, push_str, string_of};
use crate::bottleneck::bottleneck_label;

verus! {

/// One concrete change to a [`TuningConfig`].
#[derive(Debug, Clone, Copy, PartialEq, Eq, Structural)]
pub enum OptimizationAction {
    SetChunkSize(usize),
    SetParallelStreams(u32),
    SetSocketBuffer { send_kb: u32, recv_kb: u32 },
    EnableZeroCopy,
    /// Cap the throughput, in kbps.
    ThrottleThroughput { target_kbps: u64 },
    IncreaseBatchSize(usize),
    SetWorkerThreads(usize),
    SwitchToQuic,
    SwitchToUdpCustom,
    NoOp,
}

/// The configuration after one action.
pub open spec fn apply_action(a: OptimizationAction, cfg: TuningConfig) -> TuningConfig {
    match a {
        OptimizationAction::SetChunkSize(b) => TuningConfig { chunk_size_bytes: b, ..cfg },
        OptimizationAction::SetParallelStreams(n) => TuningConfig { parallel_streams: n, ..cfg },
        OptimizationAction::SetSocketBuffer { send_kb, recv_kb } => TuningConfig {
            send_buffer_kb: send_kb,
            recv_buffer_kb: recv_kb,
            ..cfg
        },
        OptimizationAction::EnableZeroCopy => TuningConfig {
            transport_mode: TransportMode::TcpZeroCopy,
            ..cfg
        },
        OptimizationAction::ThrottleThroughput { target_kbps } => TuningConfig {
            throughput_limit_kbps: Some(target_kbps),
            ..cfg
        },
        OptimizationAction::IncreaseBatchSize(n) => TuningConfig { write_batch_size: n, ..cfg },
        OptimizationAction::SetWorkerThreads(n) => TuningConfig { worker_threads: n, ..cfg },
        OptimizationAction::SwitchToQuic => TuningConfig { transport_mode: TransportMode::Quic, ..cfg },
        OptimizationAction::SwitchToUdpCustom => TuningConfig {
            transport_mode: TransportMode::UdpCustom,
            ..cfg
        },
        OptimizationAction::NoOp => cfg,
    }
}

/// The configuration after applying `acts` left to right.
pub open spec fn apply_actions(acts: Seq<OptimizationAction>, cfg: TuningConfig) -> TuningConfig
    decreases acts.len(),
{
    if acts.len() == 0 {
        cfg
    } else {
        apply_action(acts.last(), apply_actions(acts.drop_last(), cfg))
    }
}

impl OptimizationAction {
    /// Apply this action to a configuration, returning the changed copy.
    pub fn apply(&self, cfg: TuningConfig) -> (r: TuningConfig)
        ensures
            r == apply_action(*self, cfg),
    {
        let mut cfg = cfg;
        match *self {
            OptimizationAction::SetChunkSize(b) => cfg.chunk_size_bytes = b,
            OptimizationAction::SetParallelStreams(n) => cfg.parallel_streams = n,
            OptimizationAction::SetSocketBuffer { send_kb, recv_kb } => {
                cfg.send_buffer_kb = send_kb;
                cfg.recv_buffer_kb = recv_kb;
            },
            OptimizationAction::EnableZeroCopy => cfg.transport_mode = TransportMode::TcpZeroCopy,
            OptimizationAction::ThrottleThroughput { target_kbps } => cfg.throughput_limit_kbps =
                Some(target_kbps),
            OptimizationAction::IncreaseBatchSize(n) => cfg.write_batch_size = n,
            OptimizationAction::SetWorkerThreads(n) => cfg.worker_threads = n,
            OptimizationAction::SwitchToQuic => cfg.transport_mode = TransportMode::Quic,
            OptimizationAction::SwitchToUdpCustom => cfg.transport_mode = TransportMode::UdpCustom,
            OptimizationAction::NoOp => {},
        }
        cfg
    }
}

/// An ordered list of actions, with the reason they were chosen.
pub struct ActionPlan {
    /// Actions, applied left to right.
    pub actions: Vec<OptimizationAction>,
    /// Human-readable explanation of the choice.
    pub rationale: String,
    /// The bottleneck the plan targets.
    pub target_bottleneck: Bottleneck,
    /// Confidence of the classification, in thousandths.
    pub confidence_permille: u32,
}

/// The rationale of a plan that changes nothing.
pub open spec fn noop_rationale() -> Seq<char> {
    "System is operating within healthy parameters."@
}

impl ActionPlan {
    /// The plan that changes nothing.
    pub fn noop(bottleneck: Bottleneck) -> (p: ActionPlan)
        ensures
            p.actions@ == seq![OptimizationAction::NoOp],
            p.rationale@ == noop_rationale(),
            p.target_bottleneck == bottleneck,
            p.confidence_permille == 0,
    {
        let mut actions = Vec::new();
        actions.push(OptimizationAction::NoOp);
        ActionPlan {
            actions,
            rationale: String::from_str("System is operating within healthy parameters."),
            target_bottleneck: bottleneck,
            confidence_permille: 0,
        }
    }

    /// Apply every action in order and return the new configuration.
    pub fn apply_all(&self, config: TuningConfig) -> (r: TuningConfig)
        ensures
            r == apply_actions(self.actions@, config),
    {
        let mut cfg = config;
        let mut i: usize = 0;
        while i < self.actions.len()
            invariant
                0 <= i <= self.actions.len(),
                cfg == apply_actions(self.actions@.subrange(0, i as int), config),
            decreases self.actions.len() - i,
        {
            cfg = self.actions[i].apply(cfg);
            i = i + 1;
            assert(self.actions@.subrange(0, i as int).drop_last()
                == self.actions@.subrange(0, i - 1));
        }
        assert(self.actions@.subrange(0, self.actions.len() as int) == self.actions@);
        cfg
    }
}

} // verus!

verus! {

/// The smaller of two integers.
pub open spec fn min_int(a: int, b: int) -> int {
    if a <= b { a } else { b }
}

/// The larger of two integers.
pub open spec fn max_int(a: int, b: int) -> int {
    if a >= b { a } else { b }
}

/// The largest chunk size any plan asks for: 1 MB, the top of the
/// documented range of `chunk_size_bytes`.
pub open spec fn max_plan_chunk() -> int {
    1048576int
}

/// The documented range of `chunk_size_bytes`: 16 KB to 1 MB.
pub open spec fn chunk_in_range(b: int) -> bool {
    16_384 <= b <= 1_048_576
}

/// `[SetChunkSize(t)]` where doubling the chunk (capped at 1 MB) enlarges it, else nothing.
pub open spec fn grow_chunk_actions(cfg: TuningConfig) -> Seq<OptimizationAction> {
    let t = min_int(cfg.chunk_size_bytes * 2, max_plan_chunk());
    if t > cfg.chunk_size_bytes {
        seq![OptimizationAction::SetChunkSize(t as usize)]
    } else {
        seq![]
    }
}

/// `[SetChunkSize(t)]` where halving the chunk (but not below `floor`) shrinks it, else nothing.
pub open spec fn shrink_chunk_actions(cfg: TuningConfig, floor: int) -> Seq<OptimizationAction> {
    let t = max_int((cfg.chunk_size_bytes / 2) as int, floor);
    if t < cfg.chunk_size_bytes {
        seq![OptimizationAction::SetChunkSize(t as usize)]
    } else {
        seq![]
    }
}

/// `[SetParallelStreams(1)]` when more than one stream is in use, else nothing.
pub open spec fn single_stream_actions(cfg: TuningConfig) -> Seq<OptimizationAction> {
    if cfg.parallel_streams > 1 {
        seq![OptimizationAction::SetParallelStreams(1)]
    } else {
        seq![]
    }
}

/// Network bound: 4 MB socket buffers (when smaller), a doubled chunk
/// (at most 1 MB), two more streams (at most six); `NoOp` when nothing changes.
pub open spec fn network_actions(cfg: TuningConfig) -> Seq<OptimizationAction> {
    let bufs = if cfg.send_buffer_kb < 4096 {
        seq![OptimizationAction::SetSocketBuffer { send_kb: 4096, recv_kb: 4096 }]
    } else {
        seq![]
    };
    let ts = min_int(cfg.parallel_streams + 2, 6);
    let streams = if ts > cfg.parallel_streams {
        seq![OptimizationAction::SetParallelStreams(ts as u32)]
    } else {
        seq![]
    };
    let all = bufs + grow_chunk_actions(cfg) + streams;
    if all.len() == 0 {
        seq![OptimizationAction::NoOp]
    } else {
        all
    }
}

/// CPU bound: a halved chunk (not below 128 KB), four more chunks per
/// write batch (at most sixteen), one stream fewer (at least one).
pub open spec fn cpu_actions(cfg: TuningConfig) -> Seq<OptimizationAction> {
    let batch = min_int(cfg.write_batch_size + 4, 16);
    let ts = max_int(cfg.parallel_streams - 1, 1);
    let streams = if ts < cfg.parallel_streams {
        seq![OptimizationAction::SetParallelStreams(ts as u32)]
    } else {
        seq![]
    };
    shrink_chunk_actions(cfg, 131072int) + seq![OptimizationAction::IncreaseBatchSize(batch as usize)]
        + streams
}

/// Disk bound: a halved chunk (not below 64 KB), a single stream, and a
/// 200 Mbps cap.
pub open spec fn disk_actions(cfg: TuningConfig) -> Seq<OptimizationAction> {
    shrink_chunk_actions(cfg, 65536int) + single_stream_actions(cfg) + seq![
        OptimizationAction::ThrottleThroughput { target_kbps: 200_000 },
    ]
}

/// Memory bound: a halved chunk (not below 128 KB) and a single stream.
pub open spec fn memory_actions(cfg: TuningConfig) -> Seq<OptimizationAction> {
    shrink_chunk_actions(cfg, 131072int) + single_stream_actions(cfg)
}

/// Scheduler bound: two more workers (at most three per CPU) and a
/// doubled chunk (at most 1 MB).
pub open spec fn scheduler_actions(cpu_count: usize, cfg: TuningConfig) -> Seq<OptimizationAction> {
    let tw = min_int(cfg.worker_threads + 2, cpu_count * 3);
    let workers = if tw > cfg.worker_threads {
        seq![OptimizationAction::SetWorkerThreads(tw as usize)]
    } else {
        seq![]
    };
    workers + grow_chunk_actions(cfg)
}

/// The throttle target under thermal throttling: 60% of the current cap
/// (1 Gbps when uncapped), but never below 50 Mbps.
pub open spec fn thermal_target_kbps(cfg: TuningConfig) -> int {
    let current = match cfg.throughput_limit_kbps {
        Some(l) => l as int,
        None => 1_000_000,
    };
    max_int(current * 3 / 5, 50_000)
}

/// Thermal throttling: a lowered throughput cap, a single stream, and a
/// doubled chunk (at most 1 MB).
pub open spec fn thermal_actions(cfg: TuningConfig) -> Seq<OptimizationAction> {
    seq![OptimizationAction::ThrottleThroughput { target_kbps: thermal_target_kbps(cfg) as u64 }]
        + single_stream_actions(cfg) + grow_chunk_actions(cfg)
}

/// Kernel copy overhead: zero-copy and a doubled chunk (at most 1 MB).
pub open spec fn kernel_copy_actions(cfg: TuningConfig) -> Seq<OptimizationAction> {
    seq![OptimizationAction::EnableZeroCopy] + grow_chunk_actions(cfg)
}

/// The actions planned against bottleneck `b` (for every `b` but `Healthy`).
pub open spec fn planned_actions(cpu_count: usize, b: Bottleneck, cfg: TuningConfig) -> Seq<
    OptimizationAction,
> {
    match b {
        Bottleneck::NetworkBound => network_actions(cfg),
        Bottleneck::CpuBound => cpu_actions(cfg),
        Bottleneck::DiskBound => disk_actions(cfg),
        Bottleneck::MemoryBound => memory_actions(cfg),
        Bottleneck::SchedulerBound => scheduler_actions(cpu_count, cfg),
        Bottleneck::ThermalThrottling => thermal_actions(cfg),
        Bottleneck::KernelCopyOverhead => kernel_copy_actions(cfg),
        Bottleneck::Healthy => seq![OptimizationAction::NoOp],
    }
}

/// The rationale given for a plan against bottleneck `b`.
pub open spec fn plan_rationale(b: Bottleneck) -> Seq<char> {
    match b {
        Bottleneck::NetworkBound => "Network bottleneck: enlarging socket buffers and chunk size to saturate available bandwidth; adding parallel streams to hide RTT latency."@,
        Bottleneck::CpuBound => "CPU bottleneck: reducing chunk size to lower per-iteration CPU cost; batching writes to amortise syscall overhead; reducing parallel streams to avoid CPU over-subscription."@,
        Bottleneck::DiskBound => "Disk bottleneck: throttling throughput to let the writeback queue drain; reducing chunk size to avoid large dirty-page spikes."@,
        Bottleneck::MemoryBound => "Memory bottleneck: reducing chunk size and parallel streams to lower peak heap allocation and major page-fault rate."@,
        Bottleneck::SchedulerBound => "Scheduler bottleneck: increasing Tokio worker pool to drain run queue; enlarging chunk size to reduce the frequency of async task yields."@,
        Bottleneck::ThermalThrottling => "Thermal throttling detected: reducing throughput and parallel streams to allow the SoC to cool and restore full CPU frequency."@,
        Bottleneck::KernelCopyOverhead => "Kernel copy overhead: enabling zero-copy (mmap/sendfile) and enlarging chunk size to reduce per-MB kernel\u{2194}user copy count."@,
        Bottleneck::Healthy => noop_rationale(),
    }
}

/// Confidence (in thousandths) below which no action is planned.
pub open spec fn min_plan_confidence() -> u32 {
    150
}

/// Whether the plan against `b` can be computed without overflow, as the
/// arithmetic of each rule needs.
pub open spec fn plan_in_range(b: Bottleneck, cfg: TuningConfig) -> bool {
    let chunk_ok = cfg.chunk_size_bytes * 2 <= usize::MAX;
    match b {
        Bottleneck::NetworkBound => chunk_ok && cfg.parallel_streams + 2 <= u32::MAX,
        Bottleneck::CpuBound => cfg.write_batch_size + 4 <= usize::MAX,
        Bottleneck::SchedulerBound => chunk_ok && cfg.worker_threads + 2 <= usize::MAX,
        Bottleneck::ThermalThrottling => chunk_ok,
        Bottleneck::KernelCopyOverhead => chunk_ok,
        _ => true,
    }
}

/// Whether a plan for this classification changes nothing.
pub open spec fn plan_is_noop(b: Bottleneck, confidence_permille: u32) -> bool {
    confidence_permille < min_plan_confidence() || b == Bottleneck::Healthy
}

/// Whether the plan against `b` can be computed for `cfg` (see
/// [`plan_in_range`]).
pub fn plan_fits(b: Bottleneck, cfg: &TuningConfig) -> (r: bool)
    ensures
        r == plan_in_range(b, *cfg),
{
    let chunk_ok = cfg.chunk_size_bytes <= usize::MAX / 2;
    match b {
        Bottleneck::NetworkBound => chunk_ok && cfg.parallel_streams <= u32::MAX - 2,
        Bottleneck::CpuBound => cfg.write_batch_size <= usize::MAX - 4,
        Bottleneck::SchedulerBound => chunk_ok && cfg.worker_threads <= usize::MAX - 2,
        Bottleneck::ThermalThrottling => chunk_ok,
        Bottleneck::KernelCopyOverhead => chunk_ok,
        _ => true,
    }
}

/// The rule-based planner: maps a classified bottleneck to an action plan.
pub struct DecisionEngine {
    cpu_count: usize,
}

impl DecisionEngine {
    /// The CPU count the scheduler rules scale with.
    pub closed spec fn cpus(&self) -> usize {
        self.cpu_count
    }

    /// An engine for this machine, counting at least two CPUs.
    pub fn new() -> (e: DecisionEngine)
        ensures
            e.cpus() >= 2,
    {
        let n = crate::config::logical_cpu_count();
        DecisionEngine { cpu_count: if n >= 2 { n } else { 2 } }
    }

    fn grow_chunk(current: &TuningConfig, actions: &mut Vec<OptimizationAction>)
        requires
            current.chunk_size_bytes * 2 <= usize::MAX,
        ensures
            final(actions)@ == old(actions)@ + grow_chunk_actions(*current),
    {
        let doubled = current.chunk_size_bytes * 2;
        let t = if doubled <= 1024 * 1024 { doubled } else { 1024 * 1024 };
        if t > current.chunk_size_bytes {
            actions.push(OptimizationAction::SetChunkSize(t));
        }
    }

    fn shrink_chunk(current: &TuningConfig, floor: usize, actions: &mut Vec<OptimizationAction>)
        ensures
            final(actions)@ == old(actions)@ + shrink_chunk_actions(*current, floor as int),
    {
        let half = current.chunk_size_bytes / 2;
        let t = if half >= floor { half } else { floor };
        if t < current.chunk_size_bytes {
            actions.push(OptimizationAction::SetChunkSize(t));
        }
    }

    fn single_stream(current: &TuningConfig, actions: &mut Vec<OptimizationAction>)
        ensures
            final(actions)@ == old(actions)@ + single_stream_actions(*current),
    {
        if current.parallel_streams > 1 {
            actions.push(OptimizationAction::SetParallelStreams(1));
        }
    }

    fn plan_network(&self, current: &TuningConfig) -> (p: ActionPlan)
        requires
            plan_in_range(Bottleneck::NetworkBound, *current),
        ensures
            p.actions@ == network_actions(*current),
            p.rationale@ == plan_rationale(Bottleneck::NetworkBound),
            p.target_bottleneck == Bottleneck::NetworkBound,
            p.confidence_permille == 0,
    {
        let mut actions: Vec<OptimizationAction> = Vec::new();
        if current.send_buffer_kb < 4096 {
            actions.push(OptimizationAction::SetSocketBuffer { send_kb: 4096, recv_kb: 4096 });
        }
        Self::grow_chunk(current, &mut actions);
        let plus = current.parallel_streams + 2;
        let ts = if plus <= 6 { plus } else { 6 };
        if ts > current.parallel_streams {
            actions.push(OptimizationAction::SetParallelStreams(ts));
        }
        if actions.len() == 0 {
            actions.push(OptimizationAction::NoOp);
        }
        ActionPlan {
            actions,
            rationale: String::from_str("Network bottleneck: enlarging socket buffers and chunk size to saturate available bandwidth; adding parallel streams to hide RTT latency."),
            target_bottleneck: Bottleneck::NetworkBound,
            confidence_permille: 0,
        }
    }

    fn plan_cpu(&self, current: &TuningConfig) -> (p: ActionPlan)
        requires
            plan_in_range(Bottleneck::CpuBound, *current),
        ensures
            p.actions@ == cpu_actions(*current),
            p.rationale@ == plan_rationale(Bottleneck::CpuBound),
            p.target_bottleneck == Bottleneck::CpuBound,
            p.confidence_permille == 0,
    {
        let mut actions: Vec<OptimizationAction> = Vec::new();
        Self::shrink_chunk(current, 128 * 1024, &mut actions);
        let plus = current.write_batch_size + 4;
        let batch = if plus <= 16 { plus } else { 16 };
        actions.push(OptimizationAction::IncreaseBatchSize(batch));
        let minus = if current.parallel_streams >= 1 { current.parallel_streams - 1 } else { 0 };
        let ts = if minus >= 1 { minus } else { 1 };
        if ts < current.parallel_streams {
            actions.push(OptimizationAction::SetParallelStreams(ts));
        }
        ActionPlan {
            actions,
            rationale: String::from_str("CPU bottleneck: reducing chunk size to lower per-iteration CPU cost; batching writes to amortise syscall overhead; reducing parallel streams to avoid CPU over-subscription."),
            target_bottleneck: Bottleneck::CpuBound,
            confidence_permille: 0,
        }
    }

    fn plan_disk(&self, current: &TuningConfig) -> (p: ActionPlan)
        ensures
            p.actions@ == disk_actions(*current),
            p.rationale@ == plan_rationale(Bottleneck::DiskBound),
            p.target_bottleneck == Bottleneck::DiskBound,
            p.confidence_permille == 0,
    {
        let mut actions: Vec<OptimizationAction> = Vec::new();
        Self::shrink_chunk(current, 64 * 1024, &mut actions);
        Self::single_stream(current, &mut actions);
        actions.push(OptimizationAction::ThrottleThroughput { target_kbps: 200_000 });
        ActionPlan {
            actions,
            rationale: String::from_str("Disk bottleneck: throttling throughput to let the writeback queue drain; reducing chunk size to avoid large dirty-page spikes."),
            target_bottleneck: Bottleneck::DiskBound,
            confidence_permille: 0,
        }
    }

    fn plan_memory(&self, current: &TuningConfig) -> (p: ActionPlan)
        ensures
            p.actions@ == memory_actions(*current),
            p.rationale@ == plan_rationale(Bottleneck::MemoryBound),
            p.target_bottleneck == Bottleneck::MemoryBound,
            p.confidence_permille == 0,
    {
        let mut actions: Vec<OptimizationAction> = Vec::new();
        Self::shrink_chunk(current, 128 * 1024, &mut actions);
        Self::single_stream(current, &mut actions);
        ActionPlan {
            actions,
            rationale: String::from_str("Memory bottleneck: reducing chunk size and parallel streams to lower peak heap allocation and major page-fault rate."),
            target_bottleneck: Bottleneck::MemoryBound,
            confidence_permille: 0,
        }
    }

    fn plan_scheduler(&self, current: &TuningConfig) -> (p: ActionPlan)
        requires
            plan_in_range(Bottleneck::SchedulerBound, *current),
        ensures
            p.actions@ == scheduler_actions(self.cpus(), *current),
            p.rationale@ == plan_rationale(Bottleneck::SchedulerBound),
            p.target_bottleneck == Bottleneck::SchedulerBound,
            p.confidence_permille == 0,
    {
        let mut actions: Vec<OptimizationAction> = Vec::new();
        let cap = if self.cpu_count <= usize::MAX / 3 { self.cpu_count * 3 } else { usize::MAX };
        let plus = current.worker_threads + 2;
        let tw = if plus <= cap { plus } else { cap };
        if tw > current.worker_threads {
            actions.push(OptimizationAction::SetWorkerThreads(tw));
        }
        Self::grow_chunk(current, &mut actions);
        ActionPlan {
            actions,
            rationale: String::from_str("Scheduler bottleneck: increasing Tokio worker pool to drain run queue; enlarging chunk size to reduce the frequency of async task yields."),
            target_bottleneck: Bottleneck::SchedulerBound,
            confidence_permille: 0,
        }
    }

    fn plan_thermal(&self, current: &TuningConfig) -> (p: ActionPlan)
        requires
            plan_in_range(Bottleneck::ThermalThrottling, *current),
        ensures
            p.actions@ == thermal_actions(*current),
            p.rationale@ == plan_rationale(Bottleneck::ThermalThrottling),
            p.target_bottleneck == Bottleneck::ThermalThrottling,
            p.confidence_permille == 0,
    {
        let mut actions: Vec<OptimizationAction> = Vec::new();
        let current_tp: u64 = match current.throughput_limit_kbps {
            Some(l) => l,
            None => 1_000_000,
        };
        let scaled: u64 = current_tp / 5 * 3 + current_tp % 5 * 3 / 5;
        assert(scaled == current_tp * 3 / 5) by (nonlinear_arith)
            requires
                scaled == current_tp / 5 * 3 + current_tp % 5 * 3 / 5,
        {
            assert(current_tp == 5 * (current_tp / 5) + current_tp % 5);
        }
        let target = if scaled >= 50_000 { scaled } else { 50_000 };
        actions.push(OptimizationAction::ThrottleThroughput { target_kbps: target });
        Self::single_stream(current, &mut actions);
        Self::grow_chunk(current, &mut actions);
        ActionPlan {
            actions,
            rationale: String::from_str("Thermal throttling detected: reducing throughput and parallel streams to allow the SoC to cool and restore full CPU frequency."),
            target_bottleneck: Bottleneck::ThermalThrottling,
            confidence_permille: 0,
        }
    }

    fn plan_kernel_copy(&self, current: &TuningConfig) -> (p: ActionPlan)
        requires
            plan_in_range(Bottleneck::KernelCopyOverhead, *current),
        ensures
            p.actions@ == kernel_copy_actions(*current),
            p.rationale@ == plan_rationale(Bottleneck::KernelCopyOverhead),
            p.target_bottleneck == Bottleneck::KernelCopyOverhead,
            p.confidence_permille == 0,
    {
        let mut actions: Vec<OptimizationAction> = Vec::new();
        actions.push(OptimizationAction::EnableZeroCopy);
        Self::grow_chunk(current, &mut actions);
        ActionPlan {
            actions,
            rationale: String::from_str("Kernel copy overhead: enabling zero-copy (mmap/sendfile) and enlarging chunk size to reduce per-MB kernel\u{2194}user copy count."),
            target_bottleneck: Bottleneck::KernelCopyOverhead,
            confidence_permille: 0,
        }
    }

    /// Produce an action plan for a classified bottleneck.  Below 15%
    /// confidence, or when the system is healthy, the plan is a single
    /// `NoOp`; otherwise it holds the rule set of that bottleneck and
    /// carries the classification's bottleneck and confidence.
    pub fn plan(&self, bottleneck: Bottleneck, confidence_permille: u32, current: &TuningConfig) -> (p:
        ActionPlan)
        requires
            plan_is_noop(bottleneck, confidence_permille) || plan_in_range(bottleneck, *current),
        ensures
            plan_is_noop(bottleneck, confidence_permille) ==> {
                &&& p.actions@ == seq![OptimizationAction::NoOp]
                &&& p.rationale@ == noop_rationale()
                &&& p.target_bottleneck == bottleneck
                &&& p.confidence_permille == 0
            },
            !plan_is_noop(bottleneck, confidence_permille) ==> {
                &&& p.actions@ == planned_actions(self.cpus(), bottleneck, *current)
                &&& p.rationale@ == plan_rationale(bottleneck)
                &&& p.target_bottleneck == bottleneck
                &&& p.confidence_permille == confidence_permille
            },
            !plan_is_noop(bottleneck, confidence_permille) && bottleneck == Bottleneck::SchedulerBound
                && current.worker_threads + 2 <= self.cpus() * 3 ==> apply_actions(p.actions@, *current).worker_threads
                == current.worker_threads + 2,
    {
        proof {
            if !plan_is_noop(bottleneck, confidence_permille) && bottleneck == Bottleneck::SchedulerBound {
                law_scheduler_plan_adds_workers(self.cpus(), *current);
            }
        }
        if confidence_permille < 150 {
            return ActionPlan::noop(bottleneck);
        }
        let plan = match bottleneck {
            Bottleneck::NetworkBound => self.plan_network(current),
            Bottleneck::CpuBound => self.plan_cpu(current),
            Bottleneck::DiskBound => self.plan_disk(current),
            Bottleneck::MemoryBound => self.plan_memory(current),
            Bottleneck::SchedulerBound => self.plan_scheduler(current),
            Bottleneck::ThermalThrottling => self.plan_thermal(current),
            Bottleneck::KernelCopyOverhead => self.plan_kernel_copy(current),
            Bottleneck::Healthy => {
                return ActionPlan::noop(Bottleneck::Healthy);
            },
        };
        ActionPlan {
            actions: plan.actions,
            rationale: plan.rationale,
            target_bottleneck: bottleneck,
            confidence_permille,
        }
    }
}

} // verus!

verus! {

/// Applying two action lists in a row is applying their concatenation.
pub proof fn lemma_apply_actions_concat(a: Seq<OptimizationAction>, b: Seq<OptimizationAction>, cfg: TuningConfig)
    ensures
        apply_actions(a + b, cfg) == apply_actions(b, apply_actions(a, cfg)),
    decreases b.len(),
{
    if b.len() == 0 {
        assert(a + b == a);
    } else {
        assert((a + b).drop_last() == a + b.drop_last());
        assert((a + b).last() == b.last());
        lemma_apply_actions_concat(a, b.drop_last(), cfg);
    }
}

/// Applying the plan that changes nothing leaves the configuration as it is.
pub proof fn law_noop_plan_keeps_config(cfg: TuningConfig)
    ensures
        apply_actions(seq![OptimizationAction::NoOp], cfg) == cfg,
{
    lemma_single(OptimizationAction::NoOp, cfg);
}

/// A network plan leaves socket buffers of at least 4 MB in place: undersized
/// buffers are raised to 4096 KB on both sides, and the chunk size and
/// stream count never shrink.
pub proof fn law_network_plan_grows(cfg: TuningConfig)
    requires
        plan_in_range(Bottleneck::NetworkBound, cfg),
    ensures
        ({
            let after = apply_actions(network_actions(cfg), cfg);
            &&& cfg.send_buffer_kb < 4096 ==> after.send_buffer_kb == 4096 && after.recv_buffer_kb == 4096
            &&& cfg.send_buffer_kb >= 4096 ==> after.send_buffer_kb == cfg.send_buffer_kb
            &&& after.chunk_size_bytes >= cfg.chunk_size_bytes
            &&& after.parallel_streams >= cfg.parallel_streams
            &&& after.transport_mode == cfg.transport_mode
        }),
{
    let bufs = if cfg.send_buffer_kb < 4096 {
        seq![OptimizationAction::SetSocketBuffer { send_kb: 4096, recv_kb: 4096 }]
    } else {
        seq![]
    };
    let ts = min_int(cfg.parallel_streams + 2, 6);
    let streams = if ts > cfg.parallel_streams {
        seq![OptimizationAction::SetParallelStreams(ts as u32)]
    } else {
        seq![]
    };
    let all = bufs + grow_chunk_actions(cfg) + streams;
    lemma_apply_actions_concat(bufs + grow_chunk_actions(cfg), streams, cfg);
    lemma_apply_actions_concat(bufs, grow_chunk_actions(cfg), cfg);
    lemma_single(OptimizationAction::NoOp, cfg);
    lemma_single(OptimizationAction::SetSocketBuffer { send_kb: 4096, recv_kb: 4096 }, cfg);
    let c1 = apply_actions(bufs, cfg);
    lemma_single(OptimizationAction::SetChunkSize(min_int(cfg.chunk_size_bytes * 2, max_plan_chunk()) as usize), c1);
    let c2 = apply_actions(bufs + grow_chunk_actions(cfg), cfg);
    lemma_single(OptimizationAction::SetParallelStreams(ts as u32), c2);
    assert(apply_actions(Seq::<OptimizationAction>::empty(), cfg) == cfg);
    assert(apply_actions(Seq::<OptimizationAction>::empty(), c1) == c1);
    assert(apply_actions(Seq::<OptimizationAction>::empty(), c2) == c2);
}

/// Every chunk size in `acts` lies in the documented range.
pub open spec fn chunks_in_range(acts: Seq<OptimizationAction>) -> bool {
    forall|i: int| 0 <= i < acts.len() ==> (#[trigger] acts[i] matches OptimizationAction::SetChunkSize(n)
        ==> chunk_in_range(n as int))
}

proof fn lemma_chunks_concat(a: Seq<OptimizationAction>, b: Seq<OptimizationAction>)
    requires
        chunks_in_range(a),
        chunks_in_range(b),
    ensures
        chunks_in_range(a + b),
{
    assert forall|i: int| 0 <= i < (a + b).len() implies ((#[trigger] (a + b)[i]) matches OptimizationAction::SetChunkSize(n)
        ==> chunk_in_range(n as int)) by {
        if i < a.len() {
            assert((a + b)[i] == a[i]);
        } else {
            assert((a + b)[i] == b[i - a.len()]);
        }
    }
}

/// A plan never leaves the documented chunk range: when the current chunk
/// size lies in 16 KB to 1 MB, so does every chunk size the plan asks for.
pub proof fn law_planned_chunks_in_range(cpu_count: usize, b: Bottleneck, cfg: TuningConfig)
    requires
        chunk_in_range(cfg.chunk_size_bytes as int),
    ensures
        chunks_in_range(planned_actions(cpu_count, b, cfg)),
{
    let grow = grow_chunk_actions(cfg);
    let s128 = shrink_chunk_actions(cfg, 131072int);
    let s64 = shrink_chunk_actions(cfg, 65536int);
    let single = single_stream_actions(cfg);
    assert(chunks_in_range(grow));
    assert(chunks_in_range(s128));
    assert(chunks_in_range(s64));
    assert(chunks_in_range(single));
    match b {
        Bottleneck::NetworkBound => {
            let bufs = if cfg.send_buffer_kb < 4096 {
                seq![OptimizationAction::SetSocketBuffer { send_kb: 4096, recv_kb: 4096 }]
            } else {
                seq![]
            };
            let ts = min_int(cfg.parallel_streams + 2, 6);
            let streams = if ts > cfg.parallel_streams {
                seq![OptimizationAction::SetParallelStreams(ts as u32)]
            } else {
                seq![]
            };
            assert(chunks_in_range(bufs));
            assert(chunks_in_range(streams));
            lemma_chunks_concat(bufs, grow);
            lemma_chunks_concat(bufs + grow, streams);
            assert(chunks_in_range(seq![OptimizationAction::NoOp]));
        },
        Bottleneck::CpuBound => {
            let batch = min_int(cfg.write_batch_size + 4, 16);
            let ts = max_int(cfg.parallel_streams - 1, 1);
            let streams = if ts < cfg.parallel_streams {
                seq![OptimizationAction::SetParallelStreams(ts as u32)]
            } else {
                seq![]
            };
            let mid = seq![OptimizationAction::IncreaseBatchSize(batch as usize)];
            assert(chunks_in_range(mid));
            assert(chunks_in_range(streams));
            lemma_chunks_concat(s128, mid);
            lemma_chunks_concat(s128 + mid, streams);
        },
        Bottleneck::DiskBound => {
            let cap = seq![OptimizationAction::ThrottleThroughput { target_kbps: 200_000 }];
            assert(chunks_in_range(cap));
            lemma_chunks_concat(s64, single);
            lemma_chunks_concat(s64 + single, cap);
        },
        Bottleneck::MemoryBound => {
            lemma_chunks_concat(s128, single);
        },
        Bottleneck::SchedulerBound => {
            let tw = min_int(cfg.worker_threads + 2, cpu_count * 3);
            let workers = if tw > cfg.worker_threads {
                seq![OptimizationAction::SetWorkerThreads(tw as usize)]
            } else {
                seq![]
            };
            assert(chunks_in_range(workers));
            lemma_chunks_concat(workers, grow);
        },
        Bottleneck::ThermalThrottling => {
            let t = seq![OptimizationAction::ThrottleThroughput { target_kbps: thermal_target_kbps(cfg) as u64 }];
            assert(chunks_in_range(t));
            lemma_chunks_concat(t, single);
            lemma_chunks_concat(t + single, grow);
        },
        Bottleneck::KernelCopyOverhead => {
            let z = seq![OptimizationAction::EnableZeroCopy];
            assert(chunks_in_range(z));
            lemma_chunks_concat(z, grow);
        },
        Bottleneck::Healthy => {
            assert(chunks_in_range(seq![OptimizationAction::NoOp]));
        },
    }
}

/// Applying a one-action list is applying the action.
pub proof fn lemma_single(a: OptimizationAction, cfg: TuningConfig)
    ensures
        apply_actions(seq![a], cfg) == apply_action(a, cfg),
{
    assert(seq![a].drop_last() == Seq::<OptimizationAction>::empty());
    assert(apply_actions(Seq::<OptimizationAction>::empty(), cfg) == cfg);
    assert(seq![a].last() == a);
}

/// A scheduler plan grows the worker pool by two, but never past three
/// workers per CPU: applied, it leaves `worker_threads + 2` workers when
/// that fits under the cap, some more workers whenever the pool is below
/// the cap, and never fewer workers or more than two extra.  Streams and
/// transport stay as they are, and the chunk size never shrinks.
pub proof fn law_scheduler_plan_adds_workers(cpu_count: usize, cfg: TuningConfig)
    requires
        plan_in_range(Bottleneck::SchedulerBound, cfg),
    ensures
        ({
            let acts = planned_actions(cpu_count, Bottleneck::SchedulerBound, cfg);
            let after = apply_actions(acts, cfg);
            &&& cfg.worker_threads + 2 <= cpu_count * 3 ==> after.worker_threads == cfg.worker_threads + 2
                && acts.contains(OptimizationAction::SetWorkerThreads((cfg.worker_threads + 2) as usize))
            &&& cfg.worker_threads < cpu_count * 3 ==> after.worker_threads > cfg.worker_threads
            &&& cfg.worker_threads <= after.worker_threads <= cfg.worker_threads + 2
            &&& after.worker_threads > cfg.worker_threads ==> after.worker_threads <= cpu_count * 3
            &&& after.parallel_streams == cfg.parallel_streams
            &&& after.transport_mode == cfg.transport_mode
            &&& after.chunk_size_bytes >= cfg.chunk_size_bytes
        }),
{
    let tw = min_int(cfg.worker_threads + 2, cpu_count * 3);
    let workers = if tw > cfg.worker_threads {
        seq![OptimizationAction::SetWorkerThreads(tw as usize)]
    } else {
        seq![]
    };
    let grow = grow_chunk_actions(cfg);
    assert(planned_actions(cpu_count, Bottleneck::SchedulerBound, cfg) == workers + grow);
    lemma_apply_actions_concat(workers, grow, cfg);
    lemma_single(OptimizationAction::SetWorkerThreads(tw as usize), cfg);
    assert(apply_actions(Seq::<OptimizationAction>::empty(), cfg) == cfg);
    let c1 = apply_actions(workers, cfg);
    lemma_single(OptimizationAction::SetChunkSize(min_int(cfg.chunk_size_bytes * 2, max_plan_chunk()) as usize), c1);
    assert(apply_actions(Seq::<OptimizationAction>::empty(), c1) == c1);
    if tw > cfg.worker_threads {
        assert((workers + grow)[0] == OptimizationAction::SetWorkerThreads(tw as usize));
    }
}

/// A kernel-copy plan always turns zero-copy on.
pub proof fn law_kernel_copy_plan_enables_zero_copy(cfg: TuningConfig)
    requires
        plan_in_range(Bottleneck::KernelCopyOverhead, cfg),
    ensures
        apply_actions(kernel_copy_actions(cfg), cfg).transport_mode == TransportMode::TcpZeroCopy,
{
    let head = seq![OptimizationAction::EnableZeroCopy];
    lemma_apply_actions_concat(head, grow_chunk_actions(cfg), cfg);
    lemma_single(OptimizationAction::EnableZeroCopy, cfg);
    let c1 = apply_actions(head, cfg);
    lemma_single(OptimizationAction::SetChunkSize(min_int(cfg.chunk_size_bytes * 2, max_plan_chunk()) as usize), c1);
    assert(apply_actions(Seq::<OptimizationAction>::empty(), c1) == c1);
}

/// A thermal plan always caps throughput, at 60% of the previous cap (1 Gbps
/// when uncapped) but never below 50 Mbps, and runs on a single stream.
pub proof fn law_thermal_plan_throttles(cfg: TuningConfig)
    requires
        plan_in_range(Bottleneck::ThermalThrottling, cfg),
    ensures
        ({
            let after = apply_actions(thermal_actions(cfg), cfg);
            &&& after.throughput_limit_kbps == Some(thermal_target_kbps(cfg) as u64)
            &&& thermal_target_kbps(cfg) >= 50_000
            &&& (cfg.throughput_limit_kbps matches Some(l) ==> (l >= 50_000 ==> thermal_target_kbps(cfg) <= l))
            &&& after.parallel_streams <= 1 || after.parallel_streams == cfg.parallel_streams
        }),
{
    let a = seq![OptimizationAction::ThrottleThroughput { target_kbps: thermal_target_kbps(cfg) as u64 }];
    let b = single_stream_actions(cfg);
    let c = grow_chunk_actions(cfg);
    lemma_apply_actions_concat(a + b, c, cfg);
    lemma_apply_actions_concat(a, b, cfg);
    lemma_single(a[0], cfg);
    let c1 = apply_actions(a, cfg);
    lemma_single(OptimizationAction::SetParallelStreams(1), c1);
    assert(apply_actions(Seq::<OptimizationAction>::empty(), c1) == c1);
    let c2 = apply_actions(a + b, cfg);
    lemma_single(OptimizationAction::SetChunkSize(min_int(cfg.chunk_size_bytes * 2, max_plan_chunk()) as usize), c2);
    assert(apply_actions(Seq::<OptimizationAction>::empty(), c2) == c2);
}

} // verus!

verus! {

/// A rate in kbps shown in Mbps with one decimal, rounded half up.
pub open spec fn mbps_text(kbps: u64) -> Seq<char> {
    let tenths = (kbps + 50) / 100;
    decimal((tenths / 10) as nat) + "."@ + seq![digit_char((tenths % 10) as nat)]
}

/// The human-readable description of an action.
pub open spec fn action_description(a: OptimizationAction) -> Seq<char> {
    match a {
        OptimizationAction::SetChunkSize(b) => "Set chunk size to "@ + decimal((b / 1024) as nat) + " KB"@,
        OptimizationAction::SetParallelStreams(n) => "Set parallel streams to "@ + decimal(n as nat),
        OptimizationAction::SetSocketBuffer { send_kb, recv_kb } => "Set socket buffers send="@
            + decimal(send_kb as nat) + " KB recv="@ + decimal(recv_kb as nat) + " KB"@,
        OptimizationAction::EnableZeroCopy => "Enable zero-copy (mmap/sendfile)"@,
        OptimizationAction::ThrottleThroughput { target_kbps } => "Throttle throughput to "@ + mbps_text(
            target_kbps,
        ) + " Mbps"@,
        OptimizationAction::IncreaseBatchSize(n) => "Increase write batch to "@ + decimal(n as nat),
        OptimizationAction::SetWorkerThreads(n) => "Set Tokio worker threads to "@ + decimal(n as nat),
        OptimizationAction::SwitchToQuic => "Switch to user-space QUIC transport"@,
        OptimizationAction::SwitchToUdpCustom => "Switch to user-space custom UDP transport"@,
        OptimizationAction::NoOp => "No action required"@,
    }
}

/// Descriptions joined with `; `.
pub open spec fn joined_descriptions(acts: Seq<OptimizationAction>) -> Seq<char>
    decreases acts.len(),
{
    if acts.len() == 0 {
        Seq::empty()
    } else if acts.len() == 1 {
        action_description(acts[0])
    } else {
        joined_descriptions(acts.drop_last()) + "; "@ + action_description(acts.last())
    }
}

/// A confidence in thousandths as a whole percentage, rounded half up.
pub open spec fn percent_of(permille: u32) -> nat {
    ((permille + 5) / 10) as nat
}

/// The one-line summary of a plan for reports.
pub open spec fn plan_summary(p: ActionPlan) -> Seq<char> {
    "Target: **"@ + bottleneck_label(p.target_bottleneck) + "** (confidence: "@ + decimal(
        percent_of(p.confidence_permille),
    ) + "%) \u{2192} "@ + joined_descriptions(p.actions@)
}

fn push_mbps(out: &mut Vec<char>, kbps: u64)
    ensures
        final(out)@ == old(out)@ + mbps_text(kbps),
{
    let tenths: u64 = ((kbps as u128 + 50) / 100) as u64;
    push_decimal(out, tenths / 10);
    push_str(out, ".");
    out.push(digit_to_char(tenths % 10));
}

fn push_description(out: &mut Vec<char>, a: OptimizationAction)
    ensures
        final(out)@ == old(out)@ + action_description(a),
{
    match a {
        OptimizationAction::SetChunkSize(b) => {
            push_str(out, "Set chunk size to ");
            push_decimal(out, (b / 1024) as u64);
            push_str(out, " KB");
        },
        OptimizationAction::SetParallelStreams(n) => {
            push_str(out, "Set parallel streams to ");
            push_decimal(out, n as u64);
        },
        OptimizationAction::SetSocketBuffer { send_kb, recv_kb } => {
            push_str(out, "Set socket buffers send=");
            push_decimal(out, send_kb as u64);
            push_str(out, " KB recv=");
            push_decimal(out, recv_kb as u64);
            push_str(out, " KB");
        },
        OptimizationAction::EnableZeroCopy => push_str(out, "Enable zero-copy (mmap/sendfile)"),
        OptimizationAction::ThrottleThroughput { target_kbps } => {
            push_str(out, "Throttle throughput to ");
            push_mbps(out, target_kbps);
            push_str(out, " Mbps");
        },
        OptimizationAction::IncreaseBatchSize(n) => {
            push_str(out, "Increase write batch to ");
            push_decimal(out, n as u64);
        },
        OptimizationAction::SetWorkerThreads(n) => {
            push_str(out, "Set Tokio worker threads to ");
            push_decimal(out, n as u64);
        },
        OptimizationAction::SwitchToQuic => push_str(out, "Switch to user-space QUIC transport"),
        OptimizationAction::SwitchToUdpCustom => push_str(out, "Switch to user-space custom UDP transport"),
        OptimizationAction::NoOp => push_str(out, "No action required"),
    }
}

impl OptimizationAction {
    /// What the action does, in words.
    pub fn description(&self) -> (s: String)
        ensures
            s@ == action_description(*self),
    {
        let mut out: Vec<char> = Vec::new();
        push_description(&mut out, *self);
        string_of(&out)
    }
}

impl ActionPlan {
    /// One-line summary for the report: target, confidence and the actions.
    pub fn summary(&self) -> (s: String)
        ensures
            s@ == plan_summary(*self),
    {
        let mut out: Vec<char> = Vec::new();
        push_str(&mut out, "Target: **");
        push_str(&mut out, self.target_bottleneck.label());
        push_str(&mut out, "** (confidence: ");
        push_decimal(&mut out, ((self.confidence_permille as u64) + 5) / 10);
        push_str(&mut out, "%) \u{2192} ");
        let ghost head = out@;
        let mut i: usize = 0;
        while i < self.actions.len()
            invariant
                0 <= i <= self.actions.len(),
                out@ == head + joined_descriptions(self.actions@.subrange(0, i as int)),
            decreases self.actions.len() - i,
        {
            let ghost sub = self.actions@.subrange(0, i + 1);
            assert(sub.drop_last() == self.actions@.subrange(0, i as int));
            if i > 0 {
                push_str(&mut out, "; ");
            } else {
                assert(self.actions@.subrange(0, 0) == Seq::<OptimizationAction>::empty());
                assert(sub[0] == self.actions@[0]);
            }
            push_description(&mut out, self.actions[i]);
            i = i + 1;
        }
        assert(self.actions@.subrange(0, self.actions.len() as int) == self.actions@);
        string_of(&out)
    }
}

} // verus!
