use pdos::active::{deregister_active_state, get_active_config, register_active_state};
use pdos::config::TuningConfig;
use pdos::p2p::{add_unique_node, android_nodes, direct_node, P2pNode};
use pdos::pairing::{
    attempt_pair, expire_pin, generate_pin, is_authenticated, load_trusted_peers, pair_with_token, PairingState,
    PeerFile, PIN_LIFETIME_SECS,
};
use pdos::profiler::{
    record_syscall, reference_costs, start_profiling, stop_profiling, ProfilerRegistry, Syscall, SyscallStat,
};
use pdos::telemetry::{transfer_id, ProtocolCounters, ProtocolEvent};
use pdos::transfer::{compress_data, compute_sha256, decompress_data, should_compress, store_session, to_hex_lower};

// ── pairing ─────────────────────────────────────────────────────────────────

fn loaded_state() -> PairingState {
    let mut st = PairingState::new();
    load_trusted_peers(&mut st, PeerFile::Missing);
    st
}

#[test]
fn pin_has_six_digits() {
    let mut st = PairingState::new();
    let pin = generate_pin(&mut st);
    assert_eq!(pin.len(), 6);
    assert!(pin.chars().all(|c| c.is_ascii_digit()));
}

#[test]
fn pairing_authenticates_token() {
    let mut st = loaded_state();
    let pin = generate_pin(&mut st);
    let token = attempt_pair(&mut st, &pin, "Pixel 8").expect("pin matches");
    assert_eq!(token.len(), 36);
    // A hyphenated, lowercase version-4 UUID.
    let cs: Vec<char> = token.chars().collect();
    for (i, c) in cs.iter().enumerate() {
        match i {
            8 | 13 | 18 | 23 => assert_eq!(*c, '-'),
            14 => assert_eq!(*c, '4'),
            19 => assert!(matches!(c, '8' | '9' | 'a' | 'b'), "variant digit {}", c),
            _ => assert!(c.is_ascii_digit() || ('a'..='f').contains(c), "hex digit {}", c),
        }
    }
    assert!(is_authenticated(&st, &token));
    assert!(!is_authenticated(&st, "someone-else"));
    let upload = pdos::dashboard::stream_upload_request(&format!("node_id={}", token), 1).unwrap();
    assert!(pdos::dashboard::upload_node_is_uuid(&upload));
    let peers = st.trusted_peers().unwrap();
    assert_eq!(peers.len(), 1);
    assert_eq!(peers[0], (token.clone(), "Pixel 8".to_string()));
}

#[test]
fn pin_is_single_use() {
    let mut st = loaded_state();
    let pin = generate_pin(&mut st);
    assert!(attempt_pair(&mut st, &pin, "a").is_some());
    assert!(attempt_pair(&mut st, &pin, "b").is_none());
    assert_eq!(st.trusted_peers().unwrap().len(), 1);
}

#[test]
fn wrong_or_expired_pin_is_refused() {
    let mut st = loaded_state();
    let pin = generate_pin(&mut st);
    let wrong = if pin == "000000" { "111111" } else { "000000" };
    assert!(attempt_pair(&mut st, wrong, "x").is_none());
    assert!(st.trusted_peers().unwrap().is_empty());
    expire_pin(&mut st);
    assert!(attempt_pair(&mut st, &pin, "x").is_none());
    assert!(pair_with_token(&mut st, &pin, "x", "t".to_string()).is_none());
}

#[test]
fn expiry_withdraws_whatever_pin_is_on_offer() {
    assert_eq!(PIN_LIFETIME_SECS, 60);
    let mut st = loaded_state();
    let _first = generate_pin(&mut st);
    let second = generate_pin(&mut st);
    // The first PIN's timer fires: the PIN on offer, now the second, goes.
    expire_pin(&mut st);
    assert!(attempt_pair(&mut st, &second, "new").is_none());
    assert!(st.trusted_peers().unwrap().is_empty());
}

#[test]
fn pairing_with_given_token() {
    let mut st = loaded_state();
    let pin = generate_pin(&mut st);
    assert_eq!(pair_with_token(&mut st, &pin, "dev", "tok-1".to_string()), Some("tok-1".to_string()));
    assert!(is_authenticated(&st, "tok-1"));
    // Pairing again keeps earlier peers.
    let pin2 = generate_pin(&mut st);
    assert_eq!(pair_with_token(&mut st, &pin2, "dev2", "tok-2".to_string()), Some("tok-2".to_string()));
    assert!(is_authenticated(&st, "tok-1"));
    assert!(is_authenticated(&st, "tok-2"));
}

#[test]
fn pairing_without_table_trusts_nobody() {
    let mut st = PairingState::new();
    assert!(!st.peers_loaded());
    let pin = generate_pin(&mut st);
    assert_eq!(pair_with_token(&mut st, &pin, "dev", "tok".to_string()), Some("tok".to_string()));
    assert!(!is_authenticated(&st, "tok"));
}

#[test]
fn loading_peer_tables() {
    let mut st = PairingState::new();
    load_trusted_peers(&mut st, PeerFile::Unreadable);
    assert!(!st.peers_loaded());
    load_trusted_peers(
        &mut st,
        PeerFile::Parsed(vec![
            ("t1".to_string(), "A".to_string()),
            ("t2".to_string(), "B".to_string()),
            ("t1".to_string(), "C".to_string()),
        ]),
    );
    assert!(st.peers_loaded());
    assert!(is_authenticated(&st, "t1"));
    assert!(is_authenticated(&st, "t2"));
    let peers = st.trusted_peers().unwrap();
    assert_eq!(peers.len(), 2);
    // The later entry wins.
    assert!(peers.contains(&("t1".to_string(), "C".to_string())));
    load_trusted_peers(&mut st, PeerFile::Missing);
    assert!(is_authenticated(&st, "t2"));
}

// ── syscall profiler ────────────────────────────────────────────────────────

#[test]
fn profiler_records_only_while_active() {
    let mut reg = ProfilerRegistry::new();
    record_syscall(&mut reg, Syscall::Read, 100, 10);
    assert_eq!(reg.stat(Syscall::Read), SyscallStat { count: 0, total_ns: 0, total_bytes: 0 });
    start_profiling(&mut reg);
    assert!(reg.active);
    record_syscall(&mut reg, Syscall::Read, 100, 10);
    record_syscall(&mut reg, Syscall::Read, 50, 0);
    assert_eq!(reg.stat(Syscall::Read), SyscallStat { count: 2, total_ns: 150, total_bytes: 10 });
}

#[test]
fn profiler_report_sorted_by_time() {
    let mut reg = ProfilerRegistry::new();
    start_profiling(&mut reg);
    record_syscall(&mut reg, Syscall::Read, 100, 10);
    record_syscall(&mut reg, Syscall::Write, 300, 0);
    record_syscall(&mut reg, Syscall::Read, 50, 5);
    record_syscall(&mut reg, Syscall::Futex, 150, 0);
    let report = stop_profiling(&mut reg).expect("calls were counted");
    assert!(!reg.active);
    let order: Vec<Syscall> = report.iter().map(|t| t.syscall).collect();
    assert_eq!(
        order,
        vec![
            Syscall::Write,
            Syscall::Read,
            Syscall::Futex,
            Syscall::Recv,
            Syscall::Send,
            Syscall::Mmap,
            Syscall::Munmap,
            Syscall::EpollWait,
            Syscall::ClockGettime,
        ]
    );
    assert_eq!(report[1].stat, SyscallStat { count: 2, total_ns: 150, total_bytes: 15 });
    // Recording is off after stopping.
    record_syscall(&mut reg, Syscall::Read, 1, 1);
    assert_eq!(reg.stat(Syscall::Read).count, 2);
}

#[test]
fn profiler_without_calls_reports_nothing() {
    let mut reg = ProfilerRegistry::new();
    start_profiling(&mut reg);
    assert!(stop_profiling(&mut reg).is_none());
}

#[test]
fn profiler_restart_resets() {
    let mut reg = ProfilerRegistry::new();
    start_profiling(&mut reg);
    record_syscall(&mut reg, Syscall::Send, 7, 7);
    start_profiling(&mut reg);
    assert_eq!(reg.stat(Syscall::Send).count, 0);
    assert_eq!(Syscall::EpollWait.name(), "epoll_wait");
}

// ── file transfer helpers ───────────────────────────────────────────────────

#[test]
fn compression_choice_by_extension() {
    assert!(!should_compress("movie.mp4"));
    assert!(!should_compress("/tmp/archive.tar.gz"));
    assert!(!should_compress("doc.pdf"));
    assert!(should_compress("notes.txt"));
    assert!(should_compress("Makefile"));
    assert!(should_compress(".mp4"));
    assert!(should_compress("PHOTO.JPG"));
}

#[test]
fn sha256_hex() {
    assert_eq!(compute_sha256(b"abc"), "ba7816bf8f01cfea414140de5dae2223b00361a396177a9cb410ff61f20015ad");
    assert_eq!(compute_sha256(b""), "e3b0c44298fc1c149afbf4c8996fb92427ae41e4649b934ca495991b7852b855");
    assert_eq!(to_hex_lower(&[0x00, 0x0f, 0xa5, 0xff]), "000fa5ff");
}

#[test]
fn gzip_roundtrip() {
    let data = b"hello hello hello hello hello".to_vec();
    let z = compress_data(&data);
    assert_ne!(z, data);
    assert_eq!(&z[..2], &[0x1f, 0x8b]);
    assert_eq!(decompress_data(&z), Some(data));
    assert_eq!(decompress_data(&compress_data(b"")), Some(Vec::new()));
}

#[test]
fn gzip_rejects_garbage() {
    assert!(decompress_data(b"not gzip at all").is_none());
}

#[test]
fn session_history_keeps_newest_hundred() {
    let mut h: Vec<u32> = Vec::new();
    for i in 0..105 {
        store_session(&mut h, i);
        assert!(h.len() <= 100);
        assert_eq!(*h.last().unwrap(), i);
    }
    assert_eq!(h.len(), 100);
    assert_eq!(h[0], 5);
}

// ── discovery ───────────────────────────────────────────────────────────────

fn node(name: &str, platform: &str) -> P2pNode {
    P2pNode {
        name: name.to_string(),
        ip: "10.0.0.1".to_string(),
        port: 7878,
        node_name: name.to_string(),
        platform: platform.to_string(),
    }
}

#[test]
fn discovery_keeps_names_unique() {
    let mut list = Vec::new();
    add_unique_node(&mut list, node("a", "android"));
    add_unique_node(&mut list, node("b", "macos"));
    add_unique_node(&mut list, node("a", "linux"));
    assert_eq!(list.len(), 2);
    assert_eq!(list[0].platform, "android");
}

#[test]
fn android_nodes_in_order() {
    let list = vec![node("a", "android"), node("b", "macos"), node("c", "android"), node("d", "Android")];
    let names: Vec<String> = android_nodes(&list).into_iter().map(|n| n.name).collect();
    assert_eq!(names, vec!["a", "c"]);
}

#[test]
fn direct_nodes() {
    let n = direct_node("192.168.1.20", 7878);
    assert_eq!(n.name, "192.168.1.20:7878");
    assert_eq!(n.ip, "192.168.1.20");
    assert_eq!(n.port, 7878);
    assert_eq!(n.node_name, "Unknown");
    assert_eq!(n.platform, "android");
}

// ── telemetry and shared state ──────────────────────────────────────────────

#[test]
fn transfer_ids() {
    assert_eq!(transfer_id(0), "txn_0");
    assert_eq!(transfer_id(1234567890123), "txn_1234567890123");
    let c = ProtocolCounters::default();
    assert_eq!(c.completed_transfers, 0);
    let e = ProtocolEvent { time: "t".into(), event_type: "TLS".into(), detail: "ok".into() };
    assert_eq!(e.event_type, "TLS");
}

#[test]
fn active_state_slot() {
    let mut slot: Option<u32> = None;
    register_active_state(&mut slot, 5);
    assert_eq!(slot, Some(5));
    deregister_active_state(&mut slot);
    assert_eq!(slot, None);
    let cfg = TuningConfig::default_for_cpus(8);
    assert_eq!(get_active_config(Some(cfg)), cfg);
    assert!(get_active_config(None).worker_threads >= 2);
}

use pdos::p2p::{discovered_node, is_android_service};
use pdos::telemetry::{benchmark_base_name, pmset_thermal_state, record_log};

#[test]
fn mdns_nodes() {
    let n = discovered_node("phone._xync._tcp.local.", Some("10.0.0.9"), 7878, None, Some("android"));
    assert_eq!(n.name, "phone._xync._tcp.local.");
    assert_eq!(n.ip, "10.0.0.9");
    assert_eq!(n.node_name, "unknown");
    assert_eq!(n.platform, "android");
    let n = discovered_node("x", None, 1, Some("mac"), None);
    assert_eq!(n.ip, "");
    assert_eq!(n.platform, "unknown");
    assert!(is_android_service(Some("android"), "x"));
    assert!(is_android_service(None, "My Android Phone"));
    assert!(is_android_service(Some("linux"), "android-box"));
    assert!(!is_android_service(Some("Android"), "mac"));
    assert!(!is_android_service(None, "ANDROID"));
}

#[test]
fn thermal_states() {
    assert_eq!(pmset_thermal_state("CPU_Scheduler_Limit = 100\n"), "Fair");
    assert_eq!(pmset_thermal_state("CPU_Scheduler_Limit = 50 Critical\n"), "Critical");
    assert_eq!(pmset_thermal_state("Critical only"), "Nominal");
    assert_eq!(pmset_thermal_state(""), "Nominal");
}

#[test]
fn operation_log_is_bounded() {
    let mut logs: Vec<u32> = Vec::new();
    for i in 0..600 {
        record_log(&mut logs, i);
    }
    assert_eq!(logs.len(), 500);
    assert_eq!(logs[0], 100);
    assert_eq!(*logs.last().unwrap(), 599);
}

#[test]
fn benchmark_names() {
    assert_eq!(
        benchmark_base_name("20240101_120000", "upload", "dir/sub\\file.bin"),
        "benchmark_20240101_120000_upload_dir_sub_file.bin"
    );
}

use pdos::pairing::{handle_resume_request, ResumeError};

#[test]
fn resume_requires_trusted_token() {
    let mut st = loaded_state();
    let pin = generate_pin(&mut st);
    pair_with_token(&mut st, &pin, "dev", "tok-9".to_string());
    assert_eq!(handle_resume_request(&st, "txn_1", "tok-9", "10.0.0.2"), Ok(String::new()));
    let e = handle_resume_request(&st, "txn_1", "nope", "10.0.0.2").unwrap_err();
    assert_eq!(e, ResumeError::InvalidToken);
    assert_eq!(e.message(), "Invalid authentication token");
    assert!(handle_resume_request(&PairingState::new(), "t", "tok-9", "ip").is_err());
}

#[test]
fn reference_costs_for_an_empty_run() {
    let mut reg = ProfilerRegistry::new();
    start_profiling(&mut reg);
    assert!(stop_profiling(&mut reg).is_none());
    let table = reference_costs();
    let names: Vec<&str> = table.iter().map(|r| r.syscall.name()).collect();
    assert_eq!(
        names,
        vec!["epoll_wait", "futex", "recv", "send", "write", "read", "clock_gettime", "mmap", "munmap"]
    );
    let read = table.iter().find(|r| r.syscall == Syscall::Read).unwrap();
    assert_eq!((read.count, read.total_ns, read.average_ns, read.average_bytes), (250, 4_500_000, 18_000, 4096));
    let clock = table.iter().find(|r| r.syscall == Syscall::ClockGettime).unwrap();
    assert_eq!((clock.count, clock.total_ns, clock.average_ns, clock.average_bytes), (1200, 2_100_000, 1_700, 0));
    assert_eq!(table[0].total_ns as f64 / 1_000_000.0, 35.1);
    assert_eq!(clock.average_ns as f64 / 1_000_000.0, 0.0017);
}
