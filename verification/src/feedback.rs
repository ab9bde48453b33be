use vstd::prelude::*;
use crate::bottleneck::Bottleneck;
use crate::config::{TransportMode, TuningConfig};
use crate::decision::{ActionPlan, OptimizationAction, apply_actions, lemma_apply_actions_concat};

verus! {

/// The present throughput values among `s`, in order.
pub open spec fn present_tps(s: Seq<Option<u64>>) -> Seq<u64>
    decreases s.len(),
{
    if s.len() == 0 {
        Seq::empty()
    } else {
        let rest = present_tps(s.drop_last());
        match s.last() {
            Some(v) => rest.push(v),
            None => rest,
        }
    }
}

/// Sum of the last (up to) three values.
pub open spec fn last_three_sum(s: Seq<u64>) -> int {
    if s.len() >= 3 {
        s[s.len() - 1] + s[s.len() - 2] + s[s.len() - 3]
    } else if s.len() == 2 {
        s[0] + s[1]
    } else if s.len() == 1 {
        s[0] as int
    } else {
        0
    }
}

/// The current throughput of a sample window: the sum of the three newest
/// samples that report one, divided by three (or by the window length when
/// shorter), rounded down.
pub open spec fn rolling_tp(s: Seq<Option<u64>>) -> int {
    let d: int = if s.len() >= 3 { 3 } else { s.len() as int };
    last_three_sum(present_tps(s)) / d
}

/// A window has at most as many throughputs as samples.
pub proof fn lemma_present_len(s: Seq<Option<u64>>)
    ensures
        present_tps(s).len() <= s.len(),
    decreases s.len(),
{
    if s.len() > 0 {
        lemma_present_len(s.drop_last());
    }
}

/// Throughput of a sample window (kbps per sample, `None` where a sample
/// reports none): see [`rolling_tp`]; none for an empty window, which has
/// no mean.
pub fn rolling_throughput_kbps(tps: &Vec<Option<u64>>) -> (t: Option<u64>)
    ensures
        tps@.len() == 0 <==> t is None,
        t matches Some(v) ==> v == rolling_tp(tps@),
{
    if tps.len() == 0 {
        return None;
    }
    let mut vals: Vec<u64> = Vec::new();
    let mut i: usize = 0;
    while i < tps.len()
        invariant
            0 <= i <= tps.len(),
            vals@ == present_tps(tps@.subrange(0, i as int)),
        decreases tps.len() - i,
    {
        assert(tps@.subrange(0, i + 1).drop_last() == tps@.subrange(0, i as int));
        match tps[i] {
            Some(v) => vals.push(v),
            None => {},
        }
        i = i + 1;
    }
    assert(tps@.subrange(0, tps.len() as int) == tps@);
    let n = vals.len();
    let sum: u128 = if n >= 3 {
        vals[n - 1] as u128 + vals[n - 2] as u128 + vals[n - 3] as u128
    } else if n == 2 {
        vals[0] as u128 + vals[1] as u128
    } else if n == 1 {
        vals[0] as u128
    } else {
        0
    };
    let d: u128 = if tps.len() >= 3 { 3 } else { tps.len() as u128 };
    proof {
        lemma_present_len(tps@);
    }
    let q = sum / d;
    assert(n <= tps.len());
    assert(sum <= (if n >= 3 { 3 } else { n as int }) * (u64::MAX as int));
    assert(q <= u64::MAX) by (nonlinear_arith)
        requires
            q == sum / d,
            d >= 1,
            sum <= d * (u64::MAX as int),
    {
    }
    Some(q as u64)
}

/// Whether the throughput after a change fell more than 2% below the
/// throughput before it (a change from zero never counts as a regression).
pub open spec fn regressed(prev_tp: u64, post_tp: u64) -> bool {
    post_tp * 100 < prev_tp * 98 && prev_tp > 0
}

/// Whether throughput fell by more than 2% after a change (never when no
/// reference throughput was measured yet).
pub fn throughput_regressed(prev_tp_kbps: u64, post_tp_kbps: u64) -> (r: bool)
    ensures
        r == regressed(prev_tp_kbps, post_tp_kbps),
{
    (post_tp_kbps as u128) * 100 < (prev_tp_kbps as u128) * 98 && prev_tp_kbps > 0
}

/// The action that switches to a transport, if one exists.
pub open spec fn switch_actions(target: TransportMode) -> Seq<OptimizationAction> {
    match target {
        TransportMode::TcpZeroCopy => seq![OptimizationAction::EnableZeroCopy],
        TransportMode::Quic => seq![OptimizationAction::SwitchToQuic],
        TransportMode::UdpCustom => seq![OptimizationAction::SwitchToUdpCustom],
        TransportMode::TcpBuffered => seq![],
    }
}

/// A merged transport switch takes the transport where it was asked to go:
/// after any actions, the switch to `target` leaves `transport_mode ==
/// target` for each of zero-copy TCP, QUIC and custom UDP, touches no other
/// setting, and is the single action that names that transport.
pub proof fn law_switch_reaches_target(acts: Seq<OptimizationAction>, cfg: TuningConfig, target: TransportMode)
    requires
        target != TransportMode::TcpBuffered,
    ensures
        ({
            let before = apply_actions(acts, cfg);
            let after = apply_actions(acts + switch_actions(target), cfg);
            &&& after.transport_mode == target
            &&& after == (TuningConfig { transport_mode: target, ..before })
            &&& switch_actions(target).len() == 1
            &&& target == TransportMode::TcpZeroCopy ==> switch_actions(target)[0] == OptimizationAction::EnableZeroCopy
            &&& target == TransportMode::Quic ==> switch_actions(target)[0] == OptimizationAction::SwitchToQuic
            &&& target == TransportMode::UdpCustom ==> switch_actions(target)[0]
                == OptimizationAction::SwitchToUdpCustom
        }),
{
    let before = apply_actions(acts, cfg);
    lemma_apply_actions_concat(acts, switch_actions(target), cfg);
    crate::decision::lemma_single(switch_actions(target)[0], before);
    assert(switch_actions(target) == seq![switch_actions(target)[0]]);
}

/// Merging a switch to the current transport changes nothing, and the
/// buffered-TCP switch adds no action.
pub proof fn law_no_switch_to_buffered(acts: Seq<OptimizationAction>, cfg: TuningConfig)
    ensures
        apply_actions(acts + switch_actions(TransportMode::TcpBuffered), cfg) == apply_actions(acts, cfg),
{
    assert(acts + switch_actions(TransportMode::TcpBuffered) == acts);
}

/// Whether a plan asks for anything: its first action is not `NoOp`.
pub open spec fn plan_has_action(acts: Seq<OptimizationAction>) -> bool {
    !(acts.len() > 0 && acts[0] == OptimizationAction::NoOp)
}

/// Add the transport switch to a plan when the selected transport differs
/// from the current one; returns whether the plan then calls for a change.
pub fn merge_transport_switch(plan: &mut ActionPlan, target: TransportMode, current: TransportMode) -> (has_action: bool)
    ensures
        final(plan).rationale == old(plan).rationale,
        final(plan).target_bottleneck == old(plan).target_bottleneck,
        final(plan).confidence_permille == old(plan).confidence_permille,
        target == current ==> final(plan).actions@ == old(plan).actions@,
        target != current ==> final(plan).actions@ == old(plan).actions@ + switch_actions(target),
        has_action == (plan_has_action(old(plan).actions@) || target != current),
        target != current && target != TransportMode::TcpBuffered ==> forall|c: TuningConfig|
            #[trigger] apply_actions(final(plan).actions@, c).transport_mode == target,
{
    let mut has_action = !(plan.actions.len() > 0 && plan.actions[0] == OptimizationAction::NoOp);
    if target != current {
        has_action = true;
        match target {
            TransportMode::TcpZeroCopy => plan.actions.push(OptimizationAction::EnableZeroCopy),
            TransportMode::Quic => plan.actions.push(OptimizationAction::SwitchToQuic),
            TransportMode::UdpCustom => plan.actions.push(OptimizationAction::SwitchToUdpCustom),
            TransportMode::TcpBuffered => {},
        }
        proof {
            if target != TransportMode::TcpBuffered {
                assert forall|c: TuningConfig| #[trigger] apply_actions(plan.actions@, c).transport_mode == target by {
                    law_switch_reaches_target(old(plan).actions@, c, target);
                }
            }
        }
    }
    has_action
}

/// The configuration a plan leads to, with the selected transport taking
/// priority over whatever the plan set.
pub fn config_after_plan(plan: &ActionPlan, current: TuningConfig, target: TransportMode) -> (c: TuningConfig)
    ensures
        c == (TuningConfig { transport_mode: target, ..apply_actions(plan.actions@, current) }),
{
    let mut c = plan.apply_all(current);
    c.transport_mode = target;
    c
}

/// Seconds to wait before the next cycle: two when healthy with low
/// confidence (below 20%), one otherwise.
pub open spec fn next_interval(b: Bottleneck, confidence_permille: u32) -> u64 {
    if b == Bottleneck::Healthy && confidence_permille < 200 { 2 } else { 1 }
}

/// What the feedback loop carries from one cycle to the next.
pub struct FeedbackState {
    /// Cycles completed (wrapping).
    pub cycle: u32,
    /// Throughput measured after the last change (or at the first cycle), in kbps.
    pub prev_tp_kbps: u64,
    /// Last configuration that was kept.
    pub prev_config: TuningConfig,
}

impl FeedbackState {
    /// The state at the start of a transfer.
    pub fn new(config: TuningConfig) -> (s: FeedbackState)
        ensures
            s.cycle == 0,
            s.prev_tp_kbps == 0,
            s.prev_config == config,
    {
        FeedbackState { cycle: 0, prev_tp_kbps: 0, prev_config: config }
    }

    /// Whether the auto-tuner runs in this cycle (every third one).
    pub fn tuner_due(&self) -> (r: bool)
        ensures
            r == (self.cycle % 3 == 2),
    {
        self.cycle % 3 == 2
    }

    /// Judge a plan by the throughput it caused: `before` was in force and
    /// gave `before_tp_kbps` in this cycle; `applied` replaced it and gave
    /// `post_tp_kbps` one interval later.  When throughput fell by more than
    /// 2%, return `before` to go back to; otherwise keep `applied`.  Either
    /// way `post_tp_kbps` becomes the reference for the next cycle.
    pub fn after_change(
        &mut self,
        before: TuningConfig,
        before_tp_kbps: u64,
        applied: TuningConfig,
        post_tp_kbps: u64,
    ) -> (revert_to: Option<TuningConfig>)
        ensures
            regressed(before_tp_kbps, post_tp_kbps) ==> revert_to == Some(before)
                && final(self).prev_config == before,
            !regressed(before_tp_kbps, post_tp_kbps) ==> revert_to is None
                && final(self).prev_config == applied,
            final(self).prev_tp_kbps == post_tp_kbps,
            final(self).cycle == old(self).cycle,
    {
        let revert = throughput_regressed(before_tp_kbps, post_tp_kbps);
        let r = if revert {
            self.prev_config = before;
            Some(before)
        } else {
            self.prev_config = applied;
            None
        };
        self.prev_tp_kbps = post_tp_kbps;
        r
    }

    /// Close a cycle: seed the reference throughput if none is set yet,
    /// count the cycle, and return the seconds to wait before the next one.
    pub fn end_cycle(&mut self, bottleneck: Bottleneck, confidence_permille: u32, current_tp_kbps: u64) -> (interval_secs: u64)
        ensures
            interval_secs == next_interval(bottleneck, confidence_permille),
            final(self).prev_tp_kbps == if old(self).prev_tp_kbps == 0 { current_tp_kbps } else { old(self).prev_tp_kbps },
            final(self).cycle == (old(self).cycle + 1) % 0x1_0000_0000,
            final(self).prev_config == old(self).prev_config,
    {
        let interval = if bottleneck == Bottleneck::Healthy && confidence_permille < 200 { 2 } else { 1 };
        if self.prev_tp_kbps == 0 {
            self.prev_tp_kbps = current_tp_kbps;
        }
        self.cycle = self.cycle.wrapping_add(1);
        interval
    }
}

} // verus!
