use vstd::prelude::*;

verus! {

/// The dominant performance limiter of a transfer, as named by the classifier.
#[derive(Debug, Clone, Copy, PartialEq, Eq, Hash, Structural)]
pub enum Bottleneck {
    CpuBound,
    NetworkBound,
    DiskBound,
    MemoryBound,
    SchedulerBound,
    ThermalThrottling,
    KernelCopyOverhead,
    Healthy,
}

/// The report label of each bottleneck.
pub open spec fn bottleneck_label(b: Bottleneck) -> Seq<char> {
    match b {
        Bottleneck::CpuBound => "CPU_BOUND"@,
        Bottleneck::NetworkBound => "NETWORK_BOUND"@,
        Bottleneck::DiskBound => "DISK_BOUND"@,
        Bottleneck::MemoryBound => "MEMORY_BOUND"@,
        Bottleneck::SchedulerBound => "SCHEDULER_BOUND"@,
        Bottleneck::ThermalThrottling => "THERMAL_THROTTLING"@,
        Bottleneck::KernelCopyOverhead => "KERNEL_COPY_OVERHEAD"@,
        Bottleneck::Healthy => "HEALTHY"@,
    }
}

impl Bottleneck {
    /// The upper-case label used in reports and score tables.
    pub fn label(&self) -> (s: &'static str)
        ensures
            s@ == bottleneck_label(*self),
    {
        match self {
            Bottleneck::CpuBound => "CPU_BOUND",
            Bottleneck::NetworkBound => "NETWORK_BOUND",
            Bottleneck::DiskBound => "DISK_BOUND",
            Bottleneck::MemoryBound => "MEMORY_BOUND",
            Bottleneck::SchedulerBound => "SCHEDULER_BOUND",
            Bottleneck::ThermalThrottling => "THERMAL_THROTTLING",
            Bottleneck::KernelCopyOverhead => "KERNEL_COPY_OVERHEAD",
            Bottleneck::Healthy => "HEALTHY",
        }
    }
}

/// The stateless bottleneck classifier.
pub struct Classifier;

impl Classifier {
    pub fn new() -> (c: Classifier)
        ensures
            c == Classifier,
    {
        Classifier
    }
}

} // verus!
