use pdos::bottleneck::{Bottleneck, Classifier};
use pdos::config::{TransportMode, TuningConfig};
use pdos::decision::{ActionPlan, DecisionEngine, OptimizationAction};
use pdos::feedback::{
    config_after_plan, merge_transport_switch, rolling_throughput_kbps, throughput_regressed, FeedbackState,
};
use pdos::mode::{ModeSwitcher, SwitchReason, TransferMode};
use pdos::tuner::{AutoTuner, Dimension};

fn default_cfg() -> TuningConfig {
    TuningConfig::default()
}

fn kbps(mbps: f64) -> u64 {
    (mbps * 1000.0).round() as u64
}

// ── auto tuner ──────────────────────────────────────────────────────────────

#[test]
fn test_first_step_generates_candidate() {
    let mut tuner = AutoTuner::new();
    let cfg = default_cfg();
    let candidate = tuner.step(&cfg, kbps(100.0));
    assert!(candidate.is_some(), "Expected a candidate on first step");
}

#[test]
fn test_hill_climb_converges() {
    fn mock_tp(cfg: &TuningConfig) -> f64 {
        let dist = (cfg.chunk_size_bytes as f64 - 524288.0).abs();
        100.0 - dist / 131072.0 * 5.0
    }

    let mut tuner = AutoTuner::new();
    let mut cfg = default_cfg();
    cfg.chunk_size_bytes = 1_048_576;

    let mut last_tp = mock_tp(&cfg);
    let mut improvements = 0;

    for _ in 0..16 {
        if let Some(candidate) = tuner.step(&cfg, kbps(last_tp)) {
            let new_tp = mock_tp(&candidate);
            if new_tp > last_tp {
                cfg = candidate;
                last_tp = new_tp;
                improvements += 1;
            }
        }
    }

    assert!(improvements > 0, "Hill climbing made no improvements in 16 steps");
}

#[test]
fn test_stale_triggers_restart() {
    let mut tuner = AutoTuner::new();
    tuner.max_stale = 3;
    let cfg = default_cfg();
    for _ in 0..10 {
        if let Some(_candidate) = tuner.step(&cfg, kbps(80.0)) {}
    }
    assert!(tuner.stale_steps() < 3);
}

#[test]
fn tuner_first_step_moves_chunk_down_from_the_top() {
    let mut tuner = AutoTuner::new();
    let cfg = TuningConfig::default_for_cpus(4);
    let c = tuner.step(&cfg, 100_000).unwrap();
    // At the 1 MiB bound moving up, the chunk dimension turns round.
    assert_eq!(c.chunk_size_bytes, 1_048_576 - 131_072);
    assert_eq!(c.parallel_streams, cfg.parallel_streams);
    assert_eq!(c.send_buffer_kb, cfg.send_buffer_kb);
    assert!(tuner.probe_active());
    assert_eq!(tuner.best(), Some(&cfg));
    assert_eq!(tuner.best_throughput_kbps(), 100_000);
}

#[test]
fn tuner_adopts_two_percent_improvement() {
    let mut tuner = AutoTuner::new();
    let cfg = TuningConfig::default_for_cpus(4);
    let c = tuner.step(&cfg, 100_000).unwrap();
    // Mean of (100000, 120000) = 110000 >= 102% of 100000.
    let _ = tuner.step(&c, 120_000);
    assert_eq!(tuner.best(), Some(&c));
    assert_eq!(tuner.best_throughput_kbps(), 110_000);
    assert_eq!(tuner.stale_steps(), 0);
}

#[test]
fn tuner_counts_stale_step_without_improvement() {
    let mut tuner = AutoTuner::new();
    let cfg = TuningConfig::default_for_cpus(4);
    let c = tuner.step(&cfg, 100_000).unwrap();
    // Mean of (100000, 101000) = 100500 < 102000.
    let next = tuner.step(&c, 101_000);
    assert_eq!(tuner.stale_steps(), 1);
    assert_eq!(tuner.best(), Some(&cfg));
    // With one stale step the stream dimension moves next.
    let n = next.unwrap();
    assert_eq!(n.parallel_streams, 2);
    assert_eq!(n.chunk_size_bytes, c.chunk_size_bytes);
}

#[test]
fn dimension_moves_and_bounces() {
    let d = Dimension::new(1, 1, 8, 1);
    assert_eq!(d.direction, 1);
    assert_eq!(d.step_up(), 2);
    assert_eq!(d.step_down(), 1);
    let mut top = Dimension::new(8, 1, 8, 1);
    assert_eq!(top.apply_direction(), 7);
    assert_eq!(top.direction, -1);
    assert_eq!(top.current, 7);
    let mut bottom = Dimension::new(1, 1, 8, 1);
    bottom.direction = -1;
    assert_eq!(bottom.apply_direction(), 2);
    assert_eq!(bottom.direction, 1);
    let mut mid = Dimension::new(4096, 256, 8192, 1024);
    assert_eq!(mid.apply_direction(), 5120);
    assert_eq!(mid.direction, 1);
    let low = Dimension::new(300, 256, 8192, 1024);
    assert_eq!(low.step_down(), 256);
}

#[test]
fn dimension_moves_stay_in_range() {
    for start in 1..=8usize {
        for dir in [1i32, -1] {
            let mut d = Dimension::new(start, 1, 8, 3);
            d.direction = dir;
            let v = d.apply_direction();
            assert!((1..=8).contains(&v));
        }
    }
}

// ── decision engine ─────────────────────────────────────────────────────────

#[test]
fn test_low_confidence_returns_noop() {
    let de = DecisionEngine::new();
    let plan = de.plan(Bottleneck::NetworkBound, 100, &default_cfg());
    assert!(matches!(plan.actions[0], OptimizationAction::NoOp));
}

#[test]
fn test_network_plan_increases_buffers() {
    let de = DecisionEngine::new();
    let mut cfg = default_cfg();
    cfg.send_buffer_kb = 256;
    let plan = de.plan(Bottleneck::NetworkBound, 800, &cfg);
    let has_buf = plan.actions.iter().any(|a| matches!(a, OptimizationAction::SetSocketBuffer { .. }));
    assert!(has_buf, "Expected SetSocketBuffer action");
}

#[test]
fn test_thermal_throttles_throughput() {
    let de = DecisionEngine::new();
    let plan = de.plan(Bottleneck::ThermalThrottling, 900, &default_cfg());
    let has_tp = plan.actions.iter().any(|a| matches!(a, OptimizationAction::ThrottleThroughput { .. }));
    assert!(has_tp, "Expected ThrottleThroughput action");
}

#[test]
fn test_kernel_copy_enables_zero_copy() {
    let de = DecisionEngine::new();
    let plan = de.plan(Bottleneck::KernelCopyOverhead, 700, &default_cfg());
    let has_zc = plan.actions.iter().any(|a| matches!(a, OptimizationAction::EnableZeroCopy));
    assert!(has_zc, "Expected EnableZeroCopy action");
}

#[test]
fn test_apply_all_mutates_config() {
    let de = DecisionEngine::new();
    let mut cfg = default_cfg();
    cfg.send_buffer_kb = 256;
    let plan = de.plan(Bottleneck::NetworkBound, 850, &cfg);
    let new_cfg = plan.apply_all(cfg.clone());
    assert!(
        new_cfg.send_buffer_kb != cfg.send_buffer_kb
            || new_cfg.chunk_size_bytes != cfg.chunk_size_bytes
            || new_cfg.parallel_streams != cfg.parallel_streams,
        "apply_all should change at least one field"
    );
}

#[test]
fn network_plan_exact_actions() {
    let de = DecisionEngine::new();
    let mut cfg = TuningConfig::default_for_cpus(4);
    cfg.send_buffer_kb = 256;
    let plan = de.plan(Bottleneck::NetworkBound, 800, &cfg);
    assert_eq!(
        plan.actions,
        vec![
            OptimizationAction::SetSocketBuffer { send_kb: 4096, recv_kb: 4096 },
            OptimizationAction::SetParallelStreams(3),
        ]
    );
    assert_eq!(plan.confidence_permille, 800);
    assert_eq!(plan.target_bottleneck, Bottleneck::NetworkBound);
    let after = plan.apply_all(cfg);
    assert_eq!(after.send_buffer_kb, 4096);
    assert_eq!(after.recv_buffer_kb, 4096);
    assert_eq!(after.chunk_size_bytes, 1_048_576);
    assert_eq!(after.parallel_streams, 3);
}

#[test]
fn network_plan_with_nothing_left_is_noop() {
    let de = DecisionEngine::new();
    let mut cfg = TuningConfig::default_for_cpus(4);
    cfg.chunk_size_bytes = 1_048_576;
    cfg.parallel_streams = 6;
    let plan = de.plan(Bottleneck::NetworkBound, 800, &cfg);
    assert_eq!(plan.actions, vec![OptimizationAction::NoOp]);
}

#[test]
fn cpu_plan_exact_actions() {
    let de = DecisionEngine::new();
    let mut cfg = TuningConfig::default_for_cpus(4);
    cfg.parallel_streams = 3;
    let plan = de.plan(Bottleneck::CpuBound, 500, &cfg);
    assert_eq!(
        plan.actions,
        vec![
            OptimizationAction::SetChunkSize(524_288),
            OptimizationAction::IncreaseBatchSize(8),
            OptimizationAction::SetParallelStreams(2),
        ]
    );
}

#[test]
fn disk_and_memory_plans() {
    let de = DecisionEngine::new();
    let mut cfg = TuningConfig::default_for_cpus(4);
    cfg.parallel_streams = 4;
    let disk = de.plan(Bottleneck::DiskBound, 500, &cfg);
    assert_eq!(
        disk.actions,
        vec![
            OptimizationAction::SetChunkSize(524_288),
            OptimizationAction::SetParallelStreams(1),
            OptimizationAction::ThrottleThroughput { target_kbps: 200_000 },
        ]
    );
    let mem = de.plan(Bottleneck::MemoryBound, 500, &cfg);
    assert_eq!(
        mem.actions,
        vec![OptimizationAction::SetChunkSize(524_288), OptimizationAction::SetParallelStreams(1)]
    );
}

#[test]
fn thermal_plan_targets_sixty_percent() {
    let de = DecisionEngine::new();
    let cfg = TuningConfig::default_for_cpus(4);
    let plan = de.plan(Bottleneck::ThermalThrottling, 900, &cfg);
    assert_eq!(plan.actions[0], OptimizationAction::ThrottleThroughput { target_kbps: 600_000 });
    let mut capped = cfg;
    capped.throughput_limit_kbps = Some(60_000);
    let plan = de.plan(Bottleneck::ThermalThrottling, 900, &capped);
    assert_eq!(plan.actions[0], OptimizationAction::ThrottleThroughput { target_kbps: 50_000 });
    let after = plan.apply_all(capped);
    assert_eq!(after.throughput_limit_kbps, Some(50_000));
}

#[test]
fn healthy_plan_is_noop() {
    let de = DecisionEngine::new();
    let cfg = TuningConfig::default_for_cpus(4);
    let plan = de.plan(Bottleneck::Healthy, 990, &cfg);
    assert_eq!(plan.actions, vec![OptimizationAction::NoOp]);
    assert_eq!(plan.confidence_permille, 0);
    assert_eq!(plan.rationale, "System is operating within healthy parameters.");
    assert_eq!(plan.apply_all(cfg), cfg);
}

#[test]
fn plan_summary_text() {
    let de = DecisionEngine::new();
    let cfg = TuningConfig::default_for_cpus(4);
    let plan = de.plan(Bottleneck::ThermalThrottling, 905, &cfg);
    assert_eq!(
        plan.summary(),
        "Target: **THERMAL_THROTTLING** (confidence: 91%) \u{2192} Throttle throughput to 600.0 Mbps"
    );
    let noop = ActionPlan::noop(Bottleneck::Healthy);
    assert_eq!(noop.summary(), "Target: **HEALTHY** (confidence: 0%) \u{2192} No action required");
}

#[test]
fn action_descriptions() {
    assert_eq!(OptimizationAction::SetChunkSize(524_288).description(), "Set chunk size to 512 KB");
    assert_eq!(
        OptimizationAction::SetSocketBuffer { send_kb: 4096, recv_kb: 2048 }.description(),
        "Set socket buffers send=4096 KB recv=2048 KB"
    );
    assert_eq!(
        OptimizationAction::ThrottleThroughput { target_kbps: 123_456 }.description(),
        "Throttle throughput to 123.5 Mbps"
    );
    assert_eq!(OptimizationAction::SetWorkerThreads(6).description(), "Set Tokio worker threads to 6");
    assert_eq!(OptimizationAction::NoOp.description(), "No action required");
}

#[test]
fn action_apply_changes_one_field() {
    let cfg = TuningConfig::default_for_cpus(4);
    let z = OptimizationAction::EnableZeroCopy.apply(cfg);
    assert_eq!(z.transport_mode, TransportMode::TcpZeroCopy);
    assert_eq!(z.chunk_size_bytes, cfg.chunk_size_bytes);
    let q = OptimizationAction::SwitchToQuic.apply(cfg);
    assert_eq!(q.transport_mode, TransportMode::Quic);
    let w = OptimizationAction::SetWorkerThreads(9).apply(cfg);
    assert_eq!(w.worker_threads, 9);
    assert_eq!(OptimizationAction::NoOp.apply(cfg), cfg);
}

#[test]
fn default_config_values() {
    let cfg = TuningConfig::default_for_cpus(1);
    assert_eq!(cfg.chunk_size_bytes, 1_048_576);
    assert_eq!(cfg.parallel_streams, 1);
    assert_eq!(cfg.send_buffer_kb, 4096);
    assert_eq!(cfg.recv_buffer_kb, 4096);
    assert_eq!(cfg.write_batch_size, 4);
    assert_eq!(cfg.worker_threads, 2);
    assert_eq!(cfg.throughput_limit_kbps, None);
    assert_eq!(cfg.transport_mode, TransportMode::TcpBuffered);
    assert_eq!(TuningConfig::default_for_cpus(12).worker_threads, 12);
    assert!(default_cfg().worker_threads >= 2);
}

#[test]
fn bottleneck_labels() {
    let _ = Classifier::new();
    assert_eq!(Bottleneck::Healthy.label(), "HEALTHY");
    assert_eq!(Bottleneck::NetworkBound.label(), "NETWORK_BOUND");
    assert_eq!(Bottleneck::KernelCopyOverhead.label(), "KERNEL_COPY_OVERHEAD");
}

// ── mode switcher ───────────────────────────────────────────────────────────

#[test]
fn test_mode_switcher() {
    assert_eq!(
        ModeSwitcher::determine_mode(Bottleneck::KernelCopyOverhead, 10 * 1024 * 1024, false, TransferMode::Buffered).0,
        TransferMode::ZeroCopy
    );
    assert_eq!(
        ModeSwitcher::determine_mode(Bottleneck::KernelCopyOverhead, 2 * 1024 * 1024, false, TransferMode::Buffered).0,
        TransferMode::Buffered
    );
    assert_eq!(
        ModeSwitcher::determine_mode(Bottleneck::CpuBound, 10 * 1024 * 1024, false, TransferMode::ZeroCopy).0,
        TransferMode::Buffered
    );
    assert_eq!(
        ModeSwitcher::determine_mode(Bottleneck::KernelCopyOverhead, 10 * 1024 * 1024, true, TransferMode::ZeroCopy).0,
        TransferMode::Buffered
    );
}

#[test]
fn mode_switch_events() {
    let big = 10 * 1024 * 1024;
    let (m, ev) = ModeSwitcher::determine_mode(Bottleneck::KernelCopyOverhead, big, false, TransferMode::Buffered);
    assert_eq!(m, TransferMode::ZeroCopy);
    let ev = ev.unwrap();
    assert!(ev.enabled);
    assert_eq!(ev.reason, SwitchReason::HighKernelCopyOverhead);
    let (_, ev) = ModeSwitcher::determine_mode(Bottleneck::KernelCopyOverhead, big, true, TransferMode::ZeroCopy);
    assert_eq!(ev.unwrap().reason, SwitchReason::SyscallFailure);
    let (_, ev) = ModeSwitcher::determine_mode(Bottleneck::Healthy, 4 * 1024 * 1024, false, TransferMode::ZeroCopy);
    assert_eq!(ev.unwrap().reason, SwitchReason::SmallFile);
    let (m, ev) = ModeSwitcher::determine_mode(Bottleneck::Healthy, big, false, TransferMode::ZeroCopy);
    assert_eq!(m, TransferMode::ZeroCopy);
    assert!(ev.is_none());
    let (m, ev) = ModeSwitcher::determine_mode(Bottleneck::CpuBound, big, false, TransferMode::Buffered);
    assert_eq!(m, TransferMode::Buffered);
    assert!(ev.is_none());
}

#[test]
fn mode_event_exactly_when_mode_changes() {
    let bs = [
        Bottleneck::Healthy,
        Bottleneck::CpuBound,
        Bottleneck::KernelCopyOverhead,
        Bottleneck::NetworkBound,
    ];
    for b in bs {
        for size in [1u64, 4 * 1024 * 1024, 4 * 1024 * 1024 + 1] {
            for failed in [false, true] {
                for cur in [TransferMode::Buffered, TransferMode::ZeroCopy] {
                    let (m, ev) = ModeSwitcher::determine_mode(b, size, failed, cur);
                    assert_eq!(ev.is_some(), m != cur);
                }
            }
        }
    }
}

#[test]
fn mode_labels() {
    assert_eq!(SwitchReason::SmallFile.label(), "small_file");
    assert_eq!(SwitchReason::SyscallFailure.label(), "syscall_failure");
}

// ── feedback loop decisions ─────────────────────────────────────────────────

#[test]
fn rolling_throughput_means_last_three() {
    assert_eq!(rolling_throughput_kbps(&vec![Some(100), Some(200), Some(300), Some(600)]), Some(366));
    assert_eq!(rolling_throughput_kbps(&vec![Some(100), Some(200)]), Some(150));
    assert_eq!(rolling_throughput_kbps(&vec![None, Some(90), None]), Some(30));
    assert_eq!(rolling_throughput_kbps(&vec![None]), Some(0));
    assert_eq!(rolling_throughput_kbps(&vec![]), None);
}

#[test]
fn regression_threshold_is_two_percent() {
    assert!(throughput_regressed(100_000, 97_999));
    assert!(!throughput_regressed(100_000, 98_000));
    assert!(!throughput_regressed(0, 0));
}

#[test]
fn transport_switch_is_merged_into_plan() {
    let mut plan = ActionPlan::noop(Bottleneck::Healthy);
    assert!(!merge_transport_switch(&mut plan, TransportMode::TcpBuffered, TransportMode::TcpBuffered));
    assert_eq!(plan.actions, vec![OptimizationAction::NoOp]);
    assert!(merge_transport_switch(&mut plan, TransportMode::Quic, TransportMode::TcpBuffered));
    assert_eq!(plan.actions, vec![OptimizationAction::NoOp, OptimizationAction::SwitchToQuic]);
    let cfg = TuningConfig::default_for_cpus(4);
    let after = config_after_plan(&plan, cfg, TransportMode::Quic);
    assert_eq!(after.transport_mode, TransportMode::Quic);
    assert_eq!(after.chunk_size_bytes, cfg.chunk_size_bytes);
}

#[test]
fn feedback_state_reverts_on_regression() {
    let cfg = TuningConfig::default_for_cpus(4);
    let mut st = FeedbackState::new(cfg);
    assert_eq!(st.end_cycle(Bottleneck::Healthy, 100, 50_000), 2);
    assert_eq!(st.prev_tp_kbps, 50_000);
    assert_eq!(st.end_cycle(Bottleneck::NetworkBound, 900, 70_000), 1);
    assert_eq!(st.prev_tp_kbps, 50_000);
    assert_eq!(st.cycle, 2);
    assert!(st.tuner_due());
    let mut tried = cfg;
    tried.parallel_streams = 3;
    // 50 000 -> 40 000 kbps is a 20% fall: back to the configuration before the plan.
    assert_eq!(st.after_change(cfg, 50_000, tried, 40_000), Some(cfg));
    assert_eq!(st.prev_config, cfg);
    assert_eq!(st.prev_tp_kbps, 40_000);
    // A fall of exactly 2% is kept.
    assert_eq!(st.after_change(cfg, 50_000, tried, 49_000), None);
    assert_eq!(st.prev_config, tried);
    assert_eq!(st.prev_tp_kbps, 49_000);
    assert_eq!(st.cycle, 2);
}

#[test]
fn feedback_first_plan_that_halves_throughput_is_reverted() {
    let cfg = TuningConfig::default_for_cpus(4);
    let mut st = FeedbackState::new(cfg);
    let mut tried = cfg;
    tried.chunk_size_bytes = 524_288;
    assert_eq!(st.after_change(cfg, 100_000, tried, 50_000), Some(cfg));
    assert_eq!(st.prev_config, cfg);
    // A plan from a stall (0 kbps) is never judged a regression.
    let mut st = FeedbackState::new(cfg);
    assert_eq!(st.after_change(cfg, 0, tried, 0), None);
    assert_eq!(st.prev_config, tried);
}

#[test]
fn planned_chunk_sizes_stay_in_documented_range() {
    let de = DecisionEngine::new();
    let kinds = [
        Bottleneck::NetworkBound,
        Bottleneck::CpuBound,
        Bottleneck::DiskBound,
        Bottleneck::MemoryBound,
        Bottleneck::SchedulerBound,
        Bottleneck::ThermalThrottling,
        Bottleneck::KernelCopyOverhead,
    ];
    for chunk in [16_384usize, 65_536, 131_072, 524_288, 786_432, 1_048_576] {
        let mut cfg = TuningConfig::default_for_cpus(4);
        cfg.chunk_size_bytes = chunk;
        for b in kinds {
            let plan = de.plan(b, 800, &cfg);
            for a in &plan.actions {
                if let OptimizationAction::SetChunkSize(n) = a {
                    assert!(*n >= 16_384 && *n <= 1_048_576, "{:?} from {} gave {}", b, chunk, n);
                }
            }
        }
    }
    let mut cfg = TuningConfig::default_for_cpus(4);
    cfg.chunk_size_bytes = 786_432;
    let plan = de.plan(Bottleneck::KernelCopyOverhead, 800, &cfg);
    assert_eq!(plan.actions, vec![OptimizationAction::EnableZeroCopy, OptimizationAction::SetChunkSize(1_048_576)]);
}

#[test]
fn tuner_stale_tolerance_can_be_set() {
    let mut tuner = AutoTuner::new();
    tuner.set_max_stale(2);
    assert_eq!(tuner.max_stale, 2);
    assert_eq!(tuner.stale_steps(), 0);
    assert_eq!(tuner.best(), None);
}
