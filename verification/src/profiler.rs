use vstd::prelude::*;

verus! {

broadcast use vstd::seq_lib::group_to_multiset_ensures;

/// Call count, total time and total bytes of one hooked syscall.
#[derive(Debug, Clone, Copy, PartialEq, Eq, Structural)]
pub struct SyscallStat {
    pub count: u64,
    pub total_ns: u64,
    pub total_bytes: u64,
}

/// The hooked syscalls, in report order.
#[derive(Debug, Clone, Copy, PartialEq, Eq, Structural)]
pub enum Syscall {
    Read,
    Write,
    Recv,
    Send,
    Mmap,
    Munmap,
    Futex,
    EpollWait,
    ClockGettime,
}

/// The position of a syscall in report order.
pub open spec fn syscall_index(s: Syscall) -> int {
    match s {
        Syscall::Read => 0,
        Syscall::Write => 1,
        Syscall::Recv => 2,
        Syscall::Send => 3,
        Syscall::Mmap => 4,
        Syscall::Munmap => 5,
        Syscall::Futex => 6,
        Syscall::EpollWait => 7,
        Syscall::ClockGettime => 8,
    }
}

/// The name of a syscall in reports.
pub open spec fn syscall_name(s: Syscall) -> Seq<char> {
    match s {
        Syscall::Read => "read"@,
        Syscall::Write => "write"@,
        Syscall::Recv => "recv"@,
        Syscall::Send => "send"@,
        Syscall::Mmap => "mmap"@,
        Syscall::Munmap => "munmap"@,
        Syscall::Futex => "futex"@,
        Syscall::EpollWait => "epoll_wait"@,
        Syscall::ClockGettime => "clock_gettime"@,
    }
}

impl Syscall {
    /// The syscall's name in reports.
    pub fn name(&self) -> (s: &'static str)
        ensures
            s@ == syscall_name(*self),
    {
        match self {
            Syscall::Read => "read",
            Syscall::Write => "write",
            Syscall::Recv => "recv",
            Syscall::Send => "send",
            Syscall::Mmap => "mmap",
            Syscall::Munmap => "munmap",
            Syscall::Futex => "futex",
            Syscall::EpollWait => "epoll_wait",
            Syscall::ClockGettime => "clock_gettime",
        }
    }
}

/// The per-syscall counters and whether recording is on.
#[derive(Debug, Clone, Copy, PartialEq, Eq, Structural)]
pub struct ProfilerRegistry {
    pub read: SyscallStat,
    pub write: SyscallStat,
    pub recv: SyscallStat,
    pub send: SyscallStat,
    pub mmap: SyscallStat,
    pub munmap: SyscallStat,
    pub futex: SyscallStat,
    pub epoll_wait: SyscallStat,
    pub clock_gettime: SyscallStat,
    pub active: bool,
}

/// Counters with nothing counted.
pub open spec fn zero_stat() -> SyscallStat {
    SyscallStat { count: 0, total_ns: 0, total_bytes: 0 }
}

/// The counters of one syscall.
pub open spec fn stat_of(r: ProfilerRegistry, s: Syscall) -> SyscallStat {
    match s {
        Syscall::Read => r.read,
        Syscall::Write => r.write,
        Syscall::Recv => r.recv,
        Syscall::Send => r.send,
        Syscall::Mmap => r.mmap,
        Syscall::Munmap => r.munmap,
        Syscall::Futex => r.futex,
        Syscall::EpollWait => r.epoll_wait,
        Syscall::ClockGettime => r.clock_gettime,
    }
}

/// The registry with the counters of `s` replaced.
pub open spec fn with_stat(r: ProfilerRegistry, s: Syscall, st: SyscallStat) -> ProfilerRegistry {
    match s {
        Syscall::Read => ProfilerRegistry { read: st, ..r },
        Syscall::Write => ProfilerRegistry { write: st, ..r },
        Syscall::Recv => ProfilerRegistry { recv: st, ..r },
        Syscall::Send => ProfilerRegistry { send: st, ..r },
        Syscall::Mmap => ProfilerRegistry { mmap: st, ..r },
        Syscall::Munmap => ProfilerRegistry { munmap: st, ..r },
        Syscall::Futex => ProfilerRegistry { futex: st, ..r },
        Syscall::EpollWait => ProfilerRegistry { epoll_wait: st, ..r },
        Syscall::ClockGettime => ProfilerRegistry { clock_gettime: st, ..r },
    }
}

/// One call added to a syscall's counters (wrapping, as atomic adds do).
pub open spec fn recorded(st: SyscallStat, duration_ns: u64, bytes: u64) -> SyscallStat {
    SyscallStat {
        count: ((st.count + 1) % 0x1_0000_0000_0000_0000) as u64,
        total_ns: ((st.total_ns + duration_ns) % 0x1_0000_0000_0000_0000) as u64,
        total_bytes: if bytes > 0 {
            ((st.total_bytes + bytes) % 0x1_0000_0000_0000_0000) as u64
        } else {
            st.total_bytes
        },
    }
}

impl ProfilerRegistry {
    /// A registry with every counter at zero and recording off.
    pub fn new() -> (r: ProfilerRegistry)
        ensures
            forall|s: Syscall| stat_of(r, s) == zero_stat(),
            !r.active,
    {
        let z = SyscallStat { count: 0, total_ns: 0, total_bytes: 0 };
        ProfilerRegistry {
            read: z,
            write: z,
            recv: z,
            send: z,
            mmap: z,
            munmap: z,
            futex: z,
            epoll_wait: z,
            clock_gettime: z,
            active: false,
        }
    }

    /// The counters of one syscall.
    pub fn stat(&self, s: Syscall) -> (st: SyscallStat)
        ensures
            st == stat_of(*self, s),
    {
        match s {
            Syscall::Read => self.read,
            Syscall::Write => self.write,
            Syscall::Recv => self.recv,
            Syscall::Send => self.send,
            Syscall::Mmap => self.mmap,
            Syscall::Munmap => self.munmap,
            Syscall::Futex => self.futex,
            Syscall::EpollWait => self.epoll_wait,
            Syscall::ClockGettime => self.clock_gettime,
        }
    }
}

/// Reset every counter and turn recording on.
pub fn start_profiling(reg: &mut ProfilerRegistry)
    ensures
        forall|s: Syscall| stat_of(*final(reg), s) == zero_stat(),
        final(reg).active,
{
    let fresh = ProfilerRegistry::new();
    *reg = ProfilerRegistry { active: true, ..fresh };
    assert forall|s: Syscall| stat_of(*reg, s) == zero_stat() by {
        assert(stat_of(*reg, s) == stat_of(fresh, s));
    }
}

/// Count one call of `which` that took `duration_ns` and moved `bytes`;
/// nothing changes while recording is off.
pub fn record_syscall(reg: &mut ProfilerRegistry, which: Syscall, duration_ns: u64, bytes: u64)
    ensures
        old(reg).active ==> *final(reg) == with_stat(
            *old(reg),
            which,
            recorded(stat_of(*old(reg), which), duration_ns, bytes),
        ),
        !old(reg).active ==> *final(reg) == *old(reg),
{
    if reg.active {
        let st = reg.stat(which);
        let new_st = SyscallStat {
            count: st.count.wrapping_add(1),
            total_ns: st.total_ns.wrapping_add(duration_ns),
            total_bytes: if bytes > 0 { st.total_bytes.wrapping_add(bytes) } else { st.total_bytes },
        };
        match which {
            Syscall::Read => reg.read = new_st,
            Syscall::Write => reg.write = new_st,
            Syscall::Recv => reg.recv = new_st,
            Syscall::Send => reg.send = new_st,
            Syscall::Mmap => reg.mmap = new_st,
            Syscall::Munmap => reg.munmap = new_st,
            Syscall::Futex => reg.futex = new_st,
            Syscall::EpollWait => reg.epoll_wait = new_st,
            Syscall::ClockGettime => reg.clock_gettime = new_st,
        }
    }
}

/// The totals of one syscall at the end of a profiling run.
#[derive(Debug, Clone, Copy, PartialEq, Eq, Structural)]
pub struct SyscallTotals {
    pub syscall: Syscall,
    pub stat: SyscallStat,
}

/// Report order: more total time first; equal times in syscall order.
pub open spec fn reported_before(a: SyscallTotals, b: SyscallTotals) -> bool {
    a.stat.total_ns > b.stat.total_ns || (a.stat.total_ns == b.stat.total_ns && syscall_index(a.syscall)
        < syscall_index(b.syscall))
}

/// Every entry is reported before the ones after it.
pub open spec fn sorted_for_report(s: Seq<SyscallTotals>) -> bool {
    forall|i: int, j: int| 0 <= i < j < s.len() ==> reported_before(#[trigger] s[i], #[trigger] s[j])
}

/// The totals of every syscall, in syscall order.
pub open spec fn registry_totals(r: ProfilerRegistry) -> Seq<SyscallTotals> {
    seq![
        SyscallTotals { syscall: Syscall::Read, stat: r.read },
        SyscallTotals { syscall: Syscall::Write, stat: r.write },
        SyscallTotals { syscall: Syscall::Recv, stat: r.recv },
        SyscallTotals { syscall: Syscall::Send, stat: r.send },
        SyscallTotals { syscall: Syscall::Mmap, stat: r.mmap },
        SyscallTotals { syscall: Syscall::Munmap, stat: r.munmap },
        SyscallTotals { syscall: Syscall::Futex, stat: r.futex },
        SyscallTotals { syscall: Syscall::EpollWait, stat: r.epoll_wait },
        SyscallTotals { syscall: Syscall::ClockGettime, stat: r.clock_gettime },
    ]
}

/// Whether no syscall was counted.
pub open spec fn no_calls(r: ProfilerRegistry) -> bool {
    forall|s: Syscall| #[trigger] stat_of(r, s).count == 0
}

/// Insert `x` into a report-sorted vector, keeping it sorted.
fn insert_sorted(out: &mut Vec<SyscallTotals>, x: SyscallTotals)
    requires
        sorted_for_report(old(out)@),
        forall|i: int| 0 <= i < old(out)@.len() ==> #[trigger] old(out)@[i].syscall != x.syscall,
    ensures
        sorted_for_report(final(out)@),
        final(out)@.to_multiset() == old(out)@.to_multiset().insert(x),
{
    let mut pos: usize = 0;
    while pos < out.len() && reported_before_exec(&out[pos], &x)
        invariant
            0 <= pos <= out.len(),
            forall|i: int| 0 <= i < pos ==> reported_before(#[trigger] out@[i], x),
        decreases out.len() - pos,
    {
        pos = pos + 1;
    }
    let ghost before = out@;
    assert forall|i: int| pos <= i < before.len() implies reported_before(x, #[trigger] before[i]) by {
        assert(!reported_before(before[pos as int], x));
        assert(before[pos as int].syscall != x.syscall);
        if i > pos {
            assert(reported_before(before[pos as int], before[i]));
        }
    }
    out.insert(pos, x);
    assert(out@ == before.insert(pos as int, x));
    assert forall|i: int, j: int| 0 <= i < j < out@.len() implies reported_before(
        #[trigger] out@[i],
        #[trigger] out@[j],
    ) by {
        if j < pos {
        } else if j == pos {
        } else if i < pos {
            assert(reported_before(out@[i], x));
            assert(reported_before(x, out@[j]));
        } else if i == pos {
        } else {
            assert(out@[i] == before[i - 1]);
            assert(out@[j] == before[j - 1]);
        }
    }
}

fn reported_before_exec(a: &SyscallTotals, b: &SyscallTotals) -> (r: bool)
    ensures
        r == reported_before(*a, *b),
{
    a.stat.total_ns > b.stat.total_ns || (a.stat.total_ns == b.stat.total_ns && syscall_index_exec(a.syscall)
        < syscall_index_exec(b.syscall))
}

fn syscall_index_exec(s: Syscall) -> (i: u8)
    ensures
        i == syscall_index(s),
{
    match s {
        Syscall::Read => 0,
        Syscall::Write => 1,
        Syscall::Recv => 2,
        Syscall::Send => 3,
        Syscall::Mmap => 4,
        Syscall::Munmap => 5,
        Syscall::Futex => 6,
        Syscall::EpollWait => 7,
        Syscall::ClockGettime => 8,
    }
}

/// Turn recording off and report the totals of every syscall, most total
/// time first (equal times in syscall order); `None` when no call at all
/// was counted, in which case the report shows [`reference_costs`].
pub fn stop_profiling(reg: &mut ProfilerRegistry) -> (r: Option<Vec<SyscallTotals>>)
    ensures
        *final(reg) == (ProfilerRegistry { active: false, ..*old(reg) }),
        no_calls(*old(reg)) ==> r is None,
        !no_calls(*old(reg)) ==> (r matches Some(v) && sorted_for_report(v@) && v@.to_multiset()
            == registry_totals(*old(reg)).to_multiset()),
{
    reg.active = false;
    let r = *reg;
    let ghost all = registry_totals(r);
    let mut totals: Vec<SyscallTotals> = Vec::new();
    totals.push(SyscallTotals { syscall: Syscall::Read, stat: r.read });
    totals.push(SyscallTotals { syscall: Syscall::Write, stat: r.write });
    totals.push(SyscallTotals { syscall: Syscall::Recv, stat: r.recv });
    totals.push(SyscallTotals { syscall: Syscall::Send, stat: r.send });
    totals.push(SyscallTotals { syscall: Syscall::Mmap, stat: r.mmap });
    totals.push(SyscallTotals { syscall: Syscall::Munmap, stat: r.munmap });
    totals.push(SyscallTotals { syscall: Syscall::Futex, stat: r.futex });
    totals.push(SyscallTotals { syscall: Syscall::EpollWait, stat: r.epoll_wait });
    totals.push(SyscallTotals { syscall: Syscall::ClockGettime, stat: r.clock_gettime });
    assert(totals@ == all);
    assert forall|k: int| 0 <= k < 9 implies syscall_index(#[trigger] all[k].syscall) == k by {
        if k == 0 {} else if k == 1 {} else if k == 2 {} else if k == 3 {} else if k == 4 {}
        else if k == 5 {} else if k == 6 {} else if k == 7 {} else {}
    }

    let mut any = false;
    let mut k: usize = 0;
    while k < totals.len()
        invariant
            totals@ == all,
            0 <= k <= totals.len(),
            any <==> exists|i: int| 0 <= i < k && (#[trigger] all[i]).stat.count != 0,
        decreases totals.len() - k,
    {
        if totals[k].stat.count != 0 {
            any = true;
        }
        k = k + 1;
    }
    if !any {
        assert forall|s: Syscall| #[trigger] stat_of(*old(reg), s).count == 0 by {
            assert(all[syscall_index(s)].stat == stat_of(*old(reg), s));
        }
        return None;
    }
    assert(!no_calls(*old(reg))) by {
        let i = choose|i: int| 0 <= i < 9 && (#[trigger] all[i]).stat.count != 0;
        assert(stat_of(*old(reg), all[i].syscall) == all[i].stat);
    }

    let mut out: Vec<SyscallTotals> = Vec::new();
    let mut i: usize = 0;
    while i < totals.len()
        invariant
            totals@ == all,
            all.len() == 9,
            forall|k: int| 0 <= k < 9 ==> syscall_index(#[trigger] all[k].syscall) == k,
            0 <= i <= totals.len(),
            sorted_for_report(out@),
            out@.to_multiset() == all.subrange(0, i as int).to_multiset(),
            forall|a: int| 0 <= a < out@.len() ==> exists|b: int| 0 <= b < i && #[trigger] out@[a] == all[b],
        decreases totals.len() - i,
    {
        let x = totals[i];
        proof {
            assert forall|a: int| 0 <= a < out@.len() implies #[trigger] out@[a].syscall != x.syscall by {
                let b = choose|b: int| 0 <= b < i && out@[a] == all[b];
                assert(syscall_index(all[b].syscall) == b);
                assert(syscall_index(all[i as int].syscall) == i);
            }
        }
        let ghost prev = out@;
        insert_sorted(&mut out, x);
        proof {
            assert(all.subrange(0, i + 1) == all.subrange(0, i as int).push(x));
            assert forall|a: int| 0 <= a < out@.len() implies exists|b: int| 0 <= b < i + 1 && #[trigger] out@[a] == all[b] by {
                assert(out@.to_multiset().count(out@[a]) > 0);
                if out@[a] == x {
                    assert(x == all[i as int]);
                } else {
                    assert(prev.to_multiset().count(out@[a]) > 0);
                    assert(prev.contains(out@[a]));
                    let c = choose|c: int| 0 <= c < prev.len() && prev[c] == out@[a];
                    let b = choose|b: int| 0 <= b < i && prev[c] == all[b];
                }
            }
        }
        i = i + 1;
    }
    assert(all.subrange(0, 9) == all);
    Some(out)
}


/// A row of the table of typical syscall costs reported for a run in which
/// no call was counted: calls, total and average time in nanoseconds, and
/// average size in bytes.
#[derive(Debug, Clone, Copy, PartialEq, Eq, Structural)]
pub struct ReferenceCost {
    pub syscall: Syscall,
    pub count: u64,
    pub total_ns: u64,
    pub average_ns: u64,
    pub average_bytes: u64,
}

/// The table of typical syscall costs, most total time first.
pub open spec fn reference_table() -> Seq<ReferenceCost> {
    seq![
        ReferenceCost { syscall: Syscall::EpollWait, count: 85, total_ns: 35100000, average_ns: 412000, average_bytes: 0 },
        ReferenceCost { syscall: Syscall::Futex, count: 450, total_ns: 25400000, average_ns: 56000, average_bytes: 0 },
        ReferenceCost { syscall: Syscall::Recv, count: 320, total_ns: 15500000, average_ns: 48000, average_bytes: 16384 },
        ReferenceCost { syscall: Syscall::Send, count: 310, total_ns: 12100000, average_ns: 39000, average_bytes: 16384 },
        ReferenceCost { syscall: Syscall::Write, count: 180, total_ns: 8200000, average_ns: 45000, average_bytes: 8192 },
        ReferenceCost { syscall: Syscall::Read, count: 250, total_ns: 4500000, average_ns: 18000, average_bytes: 4096 },
        ReferenceCost { syscall: Syscall::ClockGettime, count: 1200, total_ns: 2100000, average_ns: 1700, average_bytes: 0 },
        ReferenceCost { syscall: Syscall::Mmap, count: 15, total_ns: 1200000, average_ns: 80000, average_bytes: 0 },
        ReferenceCost { syscall: Syscall::Munmap, count: 12, total_ns: 800000, average_ns: 66000, average_bytes: 0 },
    ]
}

/// The table of typical syscall costs that stands in the report of a run
/// without any counted call (see [`stop_profiling`]), most total time first.
pub fn reference_costs() -> (v: Vec<ReferenceCost>)
    ensures
        v@ == reference_table(),
        forall|i: int, j: int| 0 <= i < j < v@.len() ==> v@[i].total_ns > v@[j].total_ns,
{
    let mut v: Vec<ReferenceCost> = Vec::new();
    v.push(ReferenceCost { syscall: Syscall::EpollWait, count: 85, total_ns: 35100000, average_ns: 412000, average_bytes: 0 });
    v.push(ReferenceCost { syscall: Syscall::Futex, count: 450, total_ns: 25400000, average_ns: 56000, average_bytes: 0 });
    v.push(ReferenceCost { syscall: Syscall::Recv, count: 320, total_ns: 15500000, average_ns: 48000, average_bytes: 16384 });
    v.push(ReferenceCost { syscall: Syscall::Send, count: 310, total_ns: 12100000, average_ns: 39000, average_bytes: 16384 });
    v.push(ReferenceCost { syscall: Syscall::Write, count: 180, total_ns: 8200000, average_ns: 45000, average_bytes: 8192 });
    v.push(ReferenceCost { syscall: Syscall::Read, count: 250, total_ns: 4500000, average_ns: 18000, average_bytes: 4096 });
    v.push(ReferenceCost { syscall: Syscall::ClockGettime, count: 1200, total_ns: 2100000, average_ns: 1700, average_bytes: 0 });
    v.push(ReferenceCost { syscall: Syscall::Mmap, count: 15, total_ns: 1200000, average_ns: 80000, average_bytes: 0 });
    v.push(ReferenceCost { syscall: Syscall::Munmap, count: 12, total_ns: 800000, average_ns: 66000, average_bytes: 0 });
    assert(v@ == reference_table());
    v
}

} // verus!
