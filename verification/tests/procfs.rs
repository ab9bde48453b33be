use pdos::procfs::{
    adb_device_serials, net_dev_lines_complete, parse_meminfo_fs, parse_proc_net_dev, parse_proc_net_netstat,
    parse_proc_net_snmp, parse_run_queue_length, parse_sched_latency, parse_self_io, parse_self_maps_pages,
    parse_self_memory_stats, parse_self_sched_migrations, parse_self_status_switches, parse_vmstat_fs, SchedLatency,
};

#[test]
fn self_io_counters() {
    let text = "rchar: 100\nwchar: 2048\nsyscr: 5\nsyscw: 17\nread_bytes: 0\nwrite_bytes: 4096\ncancelled_write_bytes: 0\n";
    assert_eq!(parse_self_io(Some(text)), (17, 2048, 4096));
    assert_eq!(parse_self_io(None), (0, 0, 0));
    assert_eq!(parse_self_io(Some("wchar: x\n")), (0, 0, 0));
    // The last line of a key counts.
    assert_eq!(parse_self_io(Some("syscw: 1\nsyscw: 2\n")), (2, 0, 0));
}

#[test]
fn meminfo_page_cache() {
    let text = "MemTotal:  8000000 kB\nBuffers:     1000 kB\nCached:     20000 kB\nDirty:         12 kB\nWriteback:      3 kB\n";
    assert_eq!(parse_meminfo_fs(Some(text)), (12, 3, 21000));
    assert_eq!(parse_meminfo_fs(None), (0, 0, 0));
}

#[test]
fn vmstat_and_run_queue() {
    assert_eq!(parse_vmstat_fs(Some("nr_dirty 4\nnr_written 12345\nnr_written 9\n")), 12345);
    assert_eq!(parse_vmstat_fs(Some("nr_written_x 5\n")), 0);
    assert_eq!(parse_vmstat_fs(None), 0);
    assert_eq!(parse_run_queue_length(Some("cpu 1 2 3\nprocs_running 3\nprocs_blocked 0\n")), 3);
    assert_eq!(parse_run_queue_length(Some("procs_blocked 1\n")), 0);
}

#[test]
fn context_switches() {
    let text = "Name:\tx\nvoluntary_ctxt_switches:\t150\nnonvoluntary_ctxt_switches:\t7\n";
    assert_eq!(parse_self_status_switches(Some(text)), (150, 7));
    assert_eq!(parse_self_status_switches(None), (0, 0));
}

#[test]
fn memory_stats() {
    let status = "VmSize:\t  1000 kB\nVmRSS:\t   200 kB\nVmData:\t   300 kB\nRssAnon:\t   150 kB\nRssFile:\t    50 kB\n";
    let stat = "1234 (my (odd) name) S 1 2 3 4 5 6 77 8 99 10 11 12";
    let r = parse_self_memory_stats(Some(status), Some(stat));
    assert_eq!(r, (1000 * 1024, 200 * 1024, 300 * 1024, 150 * 1024, 50 * 1024, 77, 99));
    assert_eq!(parse_self_memory_stats(None, None), (0, 0, 0, 0, 0, 0, 0));
    // Too few fields after the name: no faults.
    assert_eq!(parse_self_memory_stats(None, Some("1 (x) S 1 2")).5, 0);
}

#[test]
fn mapped_pages() {
    let text = "00400000-00452000 r-xp 00000000 08:02 173521 /usr/bin/dbus\n7f0000000000-7f0000001000 rw-p 0 0 0\nbad line\n";
    // 0x52000 / 4096 = 82 pages, plus one page.
    assert_eq!(parse_self_maps_pages(Some(text)), 83);
    assert_eq!(parse_self_maps_pages(Some("2000-1000 r 0\n")), 0);
    assert_eq!(parse_self_maps_pages(None), 0);
}

#[test]
fn sched_migrations() {
    let text = "se.nr_migrations : 4\nnr_migrations_cold : 1\nse.nr_migrations   :   9\n";
    assert_eq!(parse_self_sched_migrations(Some(text)), 9);
    assert_eq!(parse_self_sched_migrations(Some("nr_migrations\n")), 0);
    assert_eq!(parse_self_sched_migrations(None), 0);
}

#[test]
fn sched_latency_sources() {
    match parse_sched_latency(Some("12345 67890 12\n"), None) {
        SchedLatency::Nanos(ns) => assert_eq!(ns, 67890),
        _ => panic!("expected nanoseconds"),
    }
    match parse_sched_latency(Some("12345\n"), Some("se.statistics.wait_sum : 12.5\nfoo : 1\nwait_sum_x : 3\n")) {
        SchedLatency::WaitSumMillis(v) => assert_eq!(v, vec!["12.5".to_string(), "3".to_string()]),
        _ => panic!("expected wait_sum values"),
    }
    match parse_sched_latency(None, None) {
        SchedLatency::WaitSumMillis(v) => assert!(v.is_empty()),
        _ => panic!("expected no values"),
    }
}

#[test]
fn snmp_segments() {
    let text = "Ip: Forwarding DefaultTTL\nIp: 1 64\nTcp: RtoAlgorithm InSegs OutSegs RetransSegs\nTcp: 1 500 400 7\nUdp: InDatagrams\nUdp: 3\n";
    assert_eq!(parse_proc_net_snmp(Some(text)), (500, 400, 7));
    // Header and values of different lengths are skipped.
    assert_eq!(parse_proc_net_snmp(Some("Tcp: InSegs OutSegs\nTcp: 5\n")), (0, 0, 0));
    assert_eq!(parse_proc_net_snmp(None), (0, 0, 0));
}

#[test]
fn netstat_counters() {
    let text = "TcpExt: SyncookiesSent TCPDuplicateAcks TCPOFOQueue TCPWantZeroWindowAdv TCPRcvPruned\nTcpExt: 0 11 22 3 4\nIpExt: InNoRoutes\nIpExt: 0\n";
    assert_eq!(parse_proc_net_netstat(Some(text)), (11, 22, 7));
    assert_eq!(parse_proc_net_netstat(None), (0, 0, 0));
}

#[test]
fn net_dev_totals() {
    let text = "Inter-|   Receive                                                |  Transmit\n face |bytes    packets errs drop fifo frame compressed multicast|bytes    packets errs drop fifo colls carrier compressed\n    lo: 1000 10 0 0 0 0 0 0 1000 10 0 0 0 0 0 0\n  eth0: 5000 50 0 0 0 0 0 0 7000 70 0 0 0 0 0 0\n wlan0: 100 1 0 0 0 0 0 0 200 2 0 0 0 0 0 0\n";
    assert!(net_dev_lines_complete(Some(text)));
    assert_eq!(parse_proc_net_dev(Some(text)), (5100, 51, 7200, 72));
    assert!(!net_dev_lines_complete(Some("eth0: 1 2 3 4 5 6 7 8\n")));
    assert!(net_dev_lines_complete(None));
    assert_eq!(parse_proc_net_dev(None), (0, 0, 0, 0));
}

#[test]
fn adb_serials() {
    let out = "List of devices attached\nR58M123ABC\tdevice\nemulator-5554\toffline\n192.168.1.9:5555\tdevice\n\n";
    assert_eq!(adb_device_serials(out), vec!["R58M123ABC".to_string(), "192.168.1.9:5555".to_string()]);
    assert!(adb_device_serials("").is_empty());
}

use pdos::procfs::{linux_deltas, parse_linux_counters, CpuTicks};

#[test]
fn linux_counters_from_proc_texts() {
    let stat = "42 (pdos) R 1 2 3 4 5 6 700 8 9 10";
    let status = "voluntary_ctxt_switches:\t10\nnonvoluntary_ctxt_switches:\t3\n";
    let io = "rchar: 1\nread_bytes: 4096\nwrite_bytes: 8192\n";
    let sched = "se.nr_migrations : 6\n";
    let proc_stat = "cpu  10 1 5 100 2 0 3 0 0 0\ncpu0 1 1 1 1 1 1 1 1\nintr 12345 0 0\nctxt 99\n";
    let c = parse_linux_counters(Some(stat), Some(status), Some(io), Some(sched), Some(proc_stat));
    assert!(!c.empty_stat);
    assert_eq!(c.minor_faults, 700);
    assert_eq!(c.major_faults, 9);
    assert_eq!(c.voluntary_ctxt_switches, 10);
    assert_eq!(c.involuntary_ctxt_switches, 3);
    assert_eq!(c.bytes_read, 4096);
    assert_eq!(c.bytes_written, 8192);
    assert_eq!(c.cpu_migrations, 6);
    assert_eq!(
        c.cpu,
        Some(CpuTicks { user: 10, nice: 1, system: 5, idle: 100, iowait: 2, irq: 0, softirq: 3, steal: 0 })
    );
    assert_eq!(c.interrupt_count, 12345);

    let none = parse_linux_counters(None, None, None, None, None);
    assert!(none.empty_stat);
    assert_eq!(none.cpu, Some(CpuTicks { user: 0, nice: 0, system: 0, idle: 0, iowait: 0, irq: 0, softirq: 0, steal: 0 }));
    assert!(parse_linux_counters(Some(""), None, None, None, None).empty_stat);
}

#[test]
fn linux_deltas_saturate() {
    let proc_a = "cpu 10 0 5 100 0 0 0 0 0\nintr 100\n";
    let proc_b = "cpu 15 0 7 110 1 0 0 0 0\nintr 90\n";
    let a = parse_linux_counters(Some("1 (x) S 0 0 0 0 0 0 5 0 1 0"), Some("voluntary_ctxt_switches: 4\n"), None, None, Some(proc_a));
    let b = parse_linux_counters(Some("1 (x) S 0 0 0 0 0 0 9 0 2 0"), Some("voluntary_ctxt_switches: 10\n"), None, None, Some(proc_b));
    let d = linux_deltas(Some(&a), Some(&b)).unwrap();
    assert_eq!(d.voluntary_ctxt_switches, 6);
    assert_eq!(d.minor_faults, 4);
    assert_eq!(d.major_faults, 1);
    assert_eq!(d.page_faults, 5);
    assert_eq!(d.interrupts, 0);
    assert_eq!(d.cpu, Some(CpuTicks { user: 5, nice: 0, system: 2, idle: 10, iowait: 1, irq: 0, softirq: 0, steal: 0 }));
    assert_eq!(d.cpu_total, 18);
    let same = linux_deltas(Some(&a), Some(&a)).unwrap();
    assert_eq!(same.page_faults, 0);
    assert_eq!(same.cpu_total, 0);
    let empty = parse_linux_counters(Some(""), None, None, None, None);
    assert!(linux_deltas(Some(&empty), Some(&b)).is_none());
    assert!(linux_deltas(None, Some(&b)).is_none());
    let mut no_cpu = b;
    no_cpu.cpu = None;
    let d = linux_deltas(Some(&a), Some(&no_cpu)).unwrap();
    assert_eq!(d.cpu, None);
    assert_eq!(d.cpu_total, 0);
}

use pdos::procfs::{parse_ss_connection, SsConnection};

#[test]
fn ss_connections() {
    let out = "State Recv-Q Send-Q Local Address:Port Peer Address:Port\nESTAB 0 1024 192.168.1.5:7894 192.168.1.9:51234\n\t cubic wscale:7,7 rto:204 rtt:1.25/0.5 ato:40 mss:1448 cwnd:42 rcv_space:14480\n";
    assert_eq!(
        parse_ss_connection(out, 7894),
        Some(SsConnection { recv_q: 0, send_q: 1024, rtt_text: Some("1.25".to_string()), cwnd: 42, rcv_space: 14480 })
    );
    let bare = "ESTAB 5 6 10.0.0.1:8080 10.0.0.2:1\n cubic\n";
    assert_eq!(
        parse_ss_connection(bare, 8080),
        Some(SsConnection { recv_q: 5, send_q: 6, rtt_text: None, cwnd: 10, rcv_space: 14600 })
    );
    let both = "ESTAB 0 0 a:1 b:2\n rtt:3 rcvspace:100 rcv_space:7 cwnd:x\n";
    assert_eq!(
        parse_ss_connection(both, 1),
        Some(SsConnection { recv_q: 0, send_q: 0, rtt_text: Some("3".to_string()), cwnd: 10, rcv_space: 100 })
    );
    assert_eq!(parse_ss_connection("ESTAB 0 0 a:1 b:2\n", 1), None);
    assert_eq!(parse_ss_connection(out, 9999), None);
}
