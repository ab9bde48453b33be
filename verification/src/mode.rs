use vstd::prelude::*;
use crate::bottleneck::Bottleneck;

verus! {

/// How file bytes are moved to the socket.
#[derive(Debug, Clone, Copy, PartialEq, Eq, Structural)]
pub enum TransferMode {
    Buffered,
    ZeroCopy,
}

/// Why the transfer mode changed.
#[derive(Debug, Clone, Copy, PartialEq, Eq, Structural)]
pub enum SwitchReason {
    SyscallFailure,
    SmallFile,
    HighKernelCopyOverhead,
    BottleneckChanged,
}

/// A mode change worth announcing: zero-copy was switched on or off.
#[derive(Debug, Clone, Copy, PartialEq, Eq, Structural)]
pub struct ModeSwitchEvent {
    /// `true` for `ZERO_COPY_ENABLED`, `false` for `ZERO_COPY_DISABLED`.
    pub enabled: bool,
    pub reason: SwitchReason,
}

/// The `reason` text of an announcement.
pub open spec fn reason_label(r: SwitchReason) -> Seq<char> {
    match r {
        SwitchReason::SyscallFailure => "syscall_failure"@,
        SwitchReason::SmallFile => "small_file"@,
        SwitchReason::HighKernelCopyOverhead => "high_kernel_copy_overhead"@,
        SwitchReason::BottleneckChanged => "bottleneck_changed"@,
    }
}

/// The `mode_switch` text of an announcement.
pub open spec fn event_label(e: ModeSwitchEvent) -> Seq<char> {
    if e.enabled { "ZERO_COPY_ENABLED"@ } else { "ZERO_COPY_DISABLED"@ }
}

impl SwitchReason {
    /// The `reason` value of the announcement.
    pub fn label(&self) -> (s: &'static str)
        ensures
            s@ == reason_label(*self),
    {
        match self {
            SwitchReason::SyscallFailure => "syscall_failure",
            SwitchReason::SmallFile => "small_file",
            SwitchReason::HighKernelCopyOverhead => "high_kernel_copy_overhead",
            SwitchReason::BottleneckChanged => "bottleneck_changed",
        }
    }
}

impl ModeSwitchEvent {
    /// The `mode_switch` value of the announcement.
    pub fn label(&self) -> (s: &'static str)
        ensures
            s@ == event_label(*self),
    {
        if self.enabled { "ZERO_COPY_ENABLED" } else { "ZERO_COPY_DISABLED" }
    }
}

/// Files up to this size (4 MiB) always go buffered.
pub open spec fn small_file_limit() -> u64 {
    4194304u64
}

/// The mode to use next.
pub open spec fn next_mode(bottleneck: Bottleneck, file_size: u64, zero_copy_failed: bool, current: TransferMode) -> TransferMode {
    if zero_copy_failed || file_size <= small_file_limit() {
        TransferMode::Buffered
    } else {
        match bottleneck {
            Bottleneck::KernelCopyOverhead => TransferMode::ZeroCopy,
            Bottleneck::Healthy => current,
            _ => TransferMode::Buffered,
        }
    }
}

/// The announcement that goes with the change, if any.
pub open spec fn switch_event(bottleneck: Bottleneck, file_size: u64, zero_copy_failed: bool, current: TransferMode) -> Option<ModeSwitchEvent> {
    let off = |r: SwitchReason| ModeSwitchEvent { enabled: false, reason: r };
    if zero_copy_failed {
        if current == TransferMode::ZeroCopy { Some(off(SwitchReason::SyscallFailure)) } else { None }
    } else if file_size <= small_file_limit() {
        if current == TransferMode::ZeroCopy { Some(off(SwitchReason::SmallFile)) } else { None }
    } else {
        match bottleneck {
            Bottleneck::KernelCopyOverhead => if current == TransferMode::Buffered {
                Some(ModeSwitchEvent { enabled: true, reason: SwitchReason::HighKernelCopyOverhead })
            } else {
                None
            },
            Bottleneck::Healthy => None,
            _ => if current == TransferMode::ZeroCopy { Some(off(SwitchReason::BottleneckChanged)) } else { None },
        }
    }
}

/// Chooses between buffered and zero-copy transfer.
pub struct ModeSwitcher;

impl ModeSwitcher {
    /// The transfer mode to use next, and the mode change to announce.
    ///
    /// Zero-copy is dropped after a syscall failure and for files of at most
    /// 4 MiB; otherwise it is chosen for kernel-copy overhead, kept as is when
    /// healthy, and dropped for any other bottleneck.
    pub fn determine_mode(bottleneck: Bottleneck, file_size: u64, zero_copy_failed: bool, current_mode: TransferMode) -> (r: (TransferMode, Option<ModeSwitchEvent>))
        ensures
            r.0 == next_mode(bottleneck, file_size, zero_copy_failed, current_mode),
            r.1 == switch_event(bottleneck, file_size, zero_copy_failed, current_mode),
            r.0 == TransferMode::ZeroCopy <==> (!zero_copy_failed && file_size > 4_194_304 && (bottleneck
                == Bottleneck::KernelCopyOverhead || (bottleneck == Bottleneck::Healthy && current_mode
                == TransferMode::ZeroCopy))),
    {
        proof {
            law_zero_copy_only_for_copy_overhead(bottleneck, file_size, zero_copy_failed, current_mode);
        }
        if zero_copy_failed {
            let ev = if current_mode == TransferMode::ZeroCopy {
                Some(ModeSwitchEvent { enabled: false, reason: SwitchReason::SyscallFailure })
            } else {
                None
            };
            return (TransferMode::Buffered, ev);
        }
        if file_size <= 4 * 1024 * 1024 {
            let ev = if current_mode == TransferMode::ZeroCopy {
                Some(ModeSwitchEvent { enabled: false, reason: SwitchReason::SmallFile })
            } else {
                None
            };
            return (TransferMode::Buffered, ev);
        }
        match bottleneck {
            Bottleneck::KernelCopyOverhead => {
                let ev = if current_mode == TransferMode::Buffered {
                    Some(ModeSwitchEvent { enabled: true, reason: SwitchReason::HighKernelCopyOverhead })
                } else {
                    None
                };
                (TransferMode::ZeroCopy, ev)
            },
            Bottleneck::Healthy => (current_mode, None),
            _ => {
                let ev = if current_mode == TransferMode::ZeroCopy {
                    Some(ModeSwitchEvent { enabled: false, reason: SwitchReason::BottleneckChanged })
                } else {
                    None
                };
                (TransferMode::Buffered, ev)
            },
        }
    }
}

/// An announcement is made exactly when the mode changes.
pub proof fn law_event_iff_mode_changes(bottleneck: Bottleneck, file_size: u64, zero_copy_failed: bool, current: TransferMode)
    ensures
        switch_event(bottleneck, file_size, zero_copy_failed, current) is Some
            <==> next_mode(bottleneck, file_size, zero_copy_failed, current) != current,
        switch_event(bottleneck, file_size, zero_copy_failed, current) matches Some(e)
            ==> (e.enabled <==> next_mode(bottleneck, file_size, zero_copy_failed, current) == TransferMode::ZeroCopy),
{
}

/// Zero-copy is for kernel-copy overhead alone: a file over 4 MiB without
/// a syscall failure goes zero-copy exactly when the bottleneck is kernel
/// copy overhead, or when the system is healthy and zero-copy is already in
/// use; every other case goes buffered.
pub proof fn law_zero_copy_only_for_copy_overhead(
    bottleneck: Bottleneck,
    file_size: u64,
    zero_copy_failed: bool,
    current: TransferMode,
)
    ensures
        next_mode(bottleneck, file_size, zero_copy_failed, current) == TransferMode::ZeroCopy <==> (
        !zero_copy_failed && file_size > 4_194_304 && (bottleneck == Bottleneck::KernelCopyOverhead || (
        bottleneck == Bottleneck::Healthy && current == TransferMode::ZeroCopy))),
{
}

/// Each announcement gives the true reason: zero-copy is switched on only
/// for kernel-copy overhead (on a large file, without a syscall failure);
/// it is switched off for a syscall failure only after one, for a small
/// file only for a file of at most 4 MiB, and for a changed bottleneck only
/// when the bottleneck is neither kernel-copy overhead nor healthy.
pub proof fn law_switch_reasons(bottleneck: Bottleneck, file_size: u64, zero_copy_failed: bool, current: TransferMode)
    ensures
        switch_event(bottleneck, file_size, zero_copy_failed, current) matches Some(e) ==> {
            &&& e.enabled <==> e.reason == SwitchReason::HighKernelCopyOverhead
            &&& e.reason == SwitchReason::HighKernelCopyOverhead ==> bottleneck == Bottleneck::KernelCopyOverhead
                && !zero_copy_failed && file_size > 4_194_304 && current == TransferMode::Buffered
            &&& e.reason == SwitchReason::SyscallFailure ==> zero_copy_failed && current == TransferMode::ZeroCopy
            &&& e.reason == SwitchReason::SmallFile ==> !zero_copy_failed && file_size <= 4_194_304
                && current == TransferMode::ZeroCopy
            &&& e.reason == SwitchReason::BottleneckChanged ==> !zero_copy_failed && file_size > 4_194_304
                && bottleneck != Bottleneck::KernelCopyOverhead && bottleneck != Bottleneck::Healthy
                && current == TransferMode::ZeroCopy
        },
{
}

} // verus!
