use vstd::prelude::*;
use crate::config::TuningConfig;

verus! {

/// One dimension of the hill climb: a value moved by `step` inside
/// `[min, max]`, in the current `direction` (+1 or -1).
#[derive(Debug, Clone, Copy, PartialEq, Eq, Structural)]
pub struct Dimension {
    pub current: usize,
    pub min: usize,
    pub max: usize,
    pub step: usize,
    pub direction: i32,
}

/// `current + step`, capped at `max`.
pub open spec fn dim_up(d: Dimension) -> int {
    if d.current + d.step <= d.max { d.current + d.step } else { d.max as int }
}

/// `current - step` (saturating at 0), raised to at least `min`.
pub open spec fn dim_down(d: Dimension) -> int {
    let lowered: int = if d.current >= d.step { d.current - d.step } else { 0 };
    if lowered >= d.min { lowered } else { d.min as int }
}

/// The value the next move goes to: one step in the current direction,
/// bouncing off the bound (and turning round) when already sitting on it.
pub open spec fn dim_next_value(d: Dimension) -> int {
    if d.direction > 0 {
        if dim_up(d) == d.current && d.current == d.max { dim_down(d) } else { dim_up(d) }
    } else {
        if dim_down(d) == d.current && d.current == d.min { dim_up(d) } else { dim_down(d) }
    }
}

/// The direction after the next move.
pub open spec fn dim_next_direction(d: Dimension) -> i32 {
    if d.direction > 0 {
        if dim_up(d) == d.current && d.current == d.max { -1i32 } else { d.direction }
    } else {
        if dim_down(d) == d.current && d.current == d.min { 1i32 } else { d.direction }
    }
}

/// The dimension after the next move.
pub open spec fn dim_moved(d: Dimension) -> Dimension {
    Dimension { current: dim_next_value(d) as usize, direction: dim_next_direction(d), ..d }
}

impl Dimension {
    /// A dimension at `current`, moving upwards.
    pub fn new(current: usize, min: usize, max: usize, step: usize) -> (d: Dimension)
        ensures
            d == (Dimension { current, min, max, step, direction: 1 }),
    {
        Dimension { current, min, max, step, direction: 1 }
    }

    pub fn step_up(&self) -> (v: usize)
        requires
            self.current + self.step <= usize::MAX,
        ensures
            v == dim_up(*self),
    {
        let raised = self.current + self.step;
        if raised <= self.max { raised } else { self.max }
    }

    pub fn step_down(&self) -> (v: usize)
        ensures
            v == dim_down(*self),
    {
        let lowered = if self.current >= self.step { self.current - self.step } else { 0 };
        if lowered >= self.min { lowered } else { self.min }
    }

    /// Move one step in the current direction and return the new value.
    pub fn apply_direction(&mut self) -> (v: usize)
        requires
            old(self).current + old(self).step <= usize::MAX,
        ensures
            v == dim_next_value(*old(self)),
            *final(self) == dim_moved(*old(self)),
    {
        let val = if self.direction > 0 {
            let next = self.step_up();
            if next == self.current && self.current == self.max {
                self.direction = -1;
                self.step_down()
            } else {
                next
            }
        } else {
            let next = self.step_down();
            if next == self.current && self.current == self.min {
                self.direction = 1;
                self.step_up()
            } else {
                next
            }
        };
        self.current = val;
        val
    }
}

/// A moved value stays inside `[min, max]` when the dimension starts inside it.
pub proof fn lemma_dim_moved_in_range(d: Dimension)
    requires
        d.min <= d.current <= d.max,
    ensures
        d.min <= dim_next_value(d) <= d.max,
{
}

} // verus!

verus! {

/// The standard chunk-size dimension (16 KB .. 1 MB in 128 KB steps).
pub open spec fn chunk_dimension(current: usize) -> Dimension {
    Dimension { current, min: 16_384, max: 1_048_576, step: 131_072, direction: 1 }
}

/// The standard parallel-stream dimension (1 .. 8 in steps of 1).
pub open spec fn stream_dimension(current: usize) -> Dimension {
    Dimension { current, min: 1, max: 8, step: 1, direction: 1 }
}

/// The standard socket-buffer dimension (256 KB .. 8 MB in 1 MB steps).
pub open spec fn buffer_dimension(current: usize) -> Dimension {
    Dimension { current, min: 256, max: 8192, step: 1024, direction: 1 }
}

/// Number of throughput measurements kept for smoothing.
pub open spec fn tp_window() -> nat {
    5
}

/// The abstract state of the auto-tuner.
pub struct TunerView {
    pub chunk_dim: Dimension,
    pub stream_dim: Dimension,
    pub buffer_dim: Dimension,
    pub best_throughput_kbps: u64,
    pub best_config: Option<TuningConfig>,
    pub stale_steps: u32,
    pub max_stale: u32,
    pub recent_tp: Seq<u64>,
    pub probe_active: bool,
    pub probe_config: Option<TuningConfig>,
    pub pre_probe_tp: u64,
}

/// The sum of the measurements.
pub open spec fn sum_tp(s: Seq<u64>) -> int
    decreases s.len(),
{
    if s.len() == 0 { 0 } else { sum_tp(s.drop_last()) + s.last() }
}

/// The mean of the window, rounded down (0 for an empty window).
pub open spec fn smoothed_tp(s: Seq<u64>) -> int {
    if s.len() == 0 { 0 } else { sum_tp(s) / (s.len() as int) }
}

/// The window after recording one measurement: the newest five.
pub open spec fn push_tp(s: Seq<u64>, tp: u64) -> Seq<u64> {
    if s.push(tp).len() > tp_window() { s.push(tp).drop_first() } else { s.push(tp) }
}

/// Whether `after` improves on `before` by at least 2%.
pub open spec fn improves(after: int, before: int) -> bool {
    after * 100 >= before * 102
}

/// The three tuned fields agree.
pub open spec fn configs_equal_spec(a: TuningConfig, b: TuningConfig) -> bool {
    a.chunk_size_bytes == b.chunk_size_bytes && a.parallel_streams == b.parallel_streams
        && a.send_buffer_kb == b.send_buffer_kb
}

/// Turn round the dimension picked by the stale-step counter.
pub open spec fn flipped(v: TunerView) -> TunerView {
    let tick = v.stale_steps % 3;
    if tick == 0 {
        TunerView { chunk_dim: Dimension { direction: (-v.chunk_dim.direction) as i32, ..v.chunk_dim }, ..v }
    } else if tick == 1 {
        TunerView { stream_dim: Dimension { direction: (-v.stream_dim.direction) as i32, ..v.stream_dim }, ..v }
    } else {
        TunerView { buffer_dim: Dimension { direction: (-v.buffer_dim.direction) as i32, ..v.buffer_dim }, ..v }
    }
}

/// Fresh dimensions at the tuned fields of `base`, all moving downwards,
/// and an empty measurement window.
pub open spec fn restarted(v: TunerView, base: TuningConfig) -> TunerView {
    TunerView {
        chunk_dim: Dimension { direction: -1i32, ..chunk_dimension(base.chunk_size_bytes) },
        stream_dim: Dimension { direction: -1i32, ..stream_dimension(base.parallel_streams as usize) },
        buffer_dim: Dimension { direction: -1i32, ..buffer_dimension(base.send_buffer_kb as usize) },
        recent_tp: Seq::empty(),
        ..v
    }
}

/// Record the measurement and line the dimensions up with `cfg`.
pub open spec fn synced(v: TunerView, cfg: TuningConfig, tp: u64) -> TunerView {
    TunerView {
        chunk_dim: Dimension { current: cfg.chunk_size_bytes, ..v.chunk_dim },
        stream_dim: Dimension { current: cfg.parallel_streams as usize, ..v.stream_dim },
        buffer_dim: Dimension { current: cfg.send_buffer_kb as usize, ..v.buffer_dim },
        recent_tp: push_tp(v.recent_tp, tp),
        ..v
    }
}

/// Judge the probe that ran since the last step: adopt `cfg` as best when
/// throughput rose by 2% or more, else count a stale step and turn round.
pub open spec fn probe_judged(v: TunerView, cfg: TuningConfig, smooth: int) -> TunerView {
    if v.probe_active {
        let judged = if improves(smooth, v.pre_probe_tp as int) {
            TunerView {
                best_throughput_kbps: smooth as u64,
                best_config: Some(cfg),
                stale_steps: 0,
                ..v
            }
        } else {
            flipped(TunerView { stale_steps: (v.stale_steps + 1) as u32, ..v })
        };
        TunerView { probe_active: false, probe_config: None, ..judged }
    } else {
        v
    }
}

/// Adopt `cfg` as best when nothing is recorded yet.
pub open spec fn best_initialised(v: TunerView, cfg: TuningConfig, smooth: int) -> TunerView {
    if v.best_config is None {
        TunerView { best_throughput_kbps: smooth as u64, best_config: Some(cfg), ..v }
    } else {
        v
    }
}

/// Restart after too many stale steps.
pub open spec fn restart_checked(v: TunerView, cfg: TuningConfig) -> TunerView {
    if v.stale_steps >= v.max_stale {
        TunerView { stale_steps: 0, ..restarted(v, cfg) }
    } else {
        v
    }
}

/// The candidate and state after moving the dimension picked by the
/// stale-step counter (chunk size, streams, buffers in turn).
pub open spec fn proposal(v: TunerView, cfg: TuningConfig) -> (TunerView, TuningConfig) {
    let tick = v.stale_steps % 3;
    if tick == 0 {
        (
            TunerView { chunk_dim: dim_moved(v.chunk_dim), ..v },
            TuningConfig { chunk_size_bytes: dim_next_value(v.chunk_dim) as usize, ..cfg },
        )
    } else if tick == 1 {
        (
            TunerView { stream_dim: dim_moved(v.stream_dim), ..v },
            TuningConfig { parallel_streams: dim_next_value(v.stream_dim) as u32, ..cfg },
        )
    } else {
        let b = dim_next_value(v.buffer_dim) as u32;
        (
            TunerView { buffer_dim: dim_moved(v.buffer_dim), ..v },
            TuningConfig { send_buffer_kb: b, recv_buffer_kb: b, ..cfg },
        )
    }
}

/// One feedback cycle of the tuner: the new state, and the configuration to
/// try next (none when the move leaves the tuned fields as they are).
pub open spec fn tuner_step(v: TunerView, cfg: TuningConfig, tp: u64) -> (TunerView, Option<
    TuningConfig,
>) {
    let v1 = synced(v, cfg, tp);
    let smooth = smoothed_tp(v1.recent_tp);
    let v4 = restart_checked(best_initialised(probe_judged(v1, cfg, smooth), cfg, smooth), cfg);
    let (v5, candidate) = proposal(v4, cfg);
    if configs_equal_spec(candidate, cfg) {
        (v5, None)
    } else {
        (
            TunerView {
                probe_active: true,
                probe_config: Some(candidate),
                pre_probe_tp: smooth as u64,
                ..v5
            },
            Some(candidate),
        )
    }
}

/// Whether the fields of `cfg` that the tuner moves can be stepped up
/// without overflow.
pub open spec fn tunable(cfg: TuningConfig) -> bool {
    &&& cfg.chunk_size_bytes + 131_072 <= usize::MAX
    &&& cfg.parallel_streams + 1 <= usize::MAX
    &&& cfg.send_buffer_kb + 1024 <= usize::MAX
}

/// Whether the tuner can move the fields of `cfg` (see [`tunable`]).
pub fn tunable_config(cfg: &TuningConfig) -> (r: bool)
    ensures
        r == tunable(*cfg),
{
    cfg.chunk_size_bytes <= usize::MAX - 131_072 && (cfg.parallel_streams as u64) < (usize::MAX as u64)
        && (cfg.send_buffer_kb as u64) <= (usize::MAX as u64) - 1024
}

/// Hill-climbing optimiser over chunk size, stream count and buffer size.
///
/// Throughput is measured in kbps.
pub struct AutoTuner {
    chunk_dim: Dimension,
    stream_dim: Dimension,
    buffer_dim: Dimension,
    best_throughput_kbps: u64,
    best_config: Option<TuningConfig>,
    stale_steps: u32,
    /// Stale steps tolerated before the dimensions restart.
    pub max_stale: u32,
    recent_tp: Vec<u64>,
    probe_active: bool,
    probe_config: Option<TuningConfig>,
    pre_probe_tp: u64,
}

impl View for AutoTuner {
    type V = TunerView;

    closed spec fn view(&self) -> TunerView {
        TunerView {
            chunk_dim: self.chunk_dim,
            stream_dim: self.stream_dim,
            buffer_dim: self.buffer_dim,
            best_throughput_kbps: self.best_throughput_kbps,
            best_config: self.best_config,
            stale_steps: self.stale_steps,
            max_stale: self.max_stale,
            recent_tp: self.recent_tp@,
            probe_active: self.probe_active,
            probe_config: self.probe_config,
            pre_probe_tp: self.pre_probe_tp,
        }
    }
}

/// The shape every tuner state keeps: the standard bounds and steps of the
/// three dimensions, directions of +1 or -1, at most five measurements, and
/// a stale-step counter that can still be counted up.
pub open spec fn tuner_wf(v: TunerView) -> bool {
    &&& v.chunk_dim.min == 16_384 && v.chunk_dim.max == 1_048_576 && v.chunk_dim.step == 131_072
    &&& v.stream_dim.min == 1 && v.stream_dim.max == 8 && v.stream_dim.step == 1
    &&& v.buffer_dim.min == 256 && v.buffer_dim.max == 8192 && v.buffer_dim.step == 1024
    &&& (v.chunk_dim.direction == 1 || v.chunk_dim.direction == -1)
    &&& (v.stream_dim.direction == 1 || v.stream_dim.direction == -1)
    &&& (v.buffer_dim.direction == 1 || v.buffer_dim.direction == -1)
    &&& v.recent_tp.len() <= tp_window()
    &&& v.stale_steps < u32::MAX
}

/// A sum of `u64` measurements is at most their count times `u64::MAX`.
pub proof fn lemma_sum_tp_bound(s: Seq<u64>)
    ensures
        0 <= sum_tp(s) <= s.len() * (u64::MAX as int),
    decreases s.len(),
{
    if s.len() > 0 {
        lemma_sum_tp_bound(s.drop_last());
    }
}

impl AutoTuner {
    /// A tuner starting from 1 MB chunks, one stream and 4 MB buffers, with
    /// nothing measured yet and a tolerance of eight stale steps.
    pub fn new() -> (t: AutoTuner)
        ensures
            tuner_wf(t@),
            t@.chunk_dim == chunk_dimension(1_048_576),
            t@.stream_dim == stream_dimension(1),
            t@.buffer_dim == buffer_dimension(4096),
            t@.best_throughput_kbps == 0,
            t@.best_config is None,
            t@.stale_steps == 0,
            t@.max_stale == 8,
            t@.recent_tp.len() == 0,
            !t@.probe_active,
            t@.probe_config is None,
            t@.pre_probe_tp == 0,
    {
        AutoTuner {
            chunk_dim: Dimension::new(1_048_576, 16_384, 1_048_576, 131_072),
            stream_dim: Dimension::new(1, 1, 8, 1),
            buffer_dim: Dimension::new(4096, 256, 8192, 1024),
            best_throughput_kbps: 0,
            best_config: None,
            stale_steps: 0,
            max_stale: 8,
            recent_tp: Vec::new(),
            probe_active: false,
            probe_config: None,
            pre_probe_tp: 0,
        }
    }

    /// Set how many stale steps are tolerated before the dimensions restart.
    pub fn set_max_stale(&mut self, n: u32)
        ensures
            final(self)@ == (TunerView { max_stale: n, ..old(self)@ }),
    {
        self.max_stale = n;
    }

    /// The best configuration found so far.
    pub fn best(&self) -> (b: Option<&TuningConfig>)
        ensures
            b == match self@.best_config {
                Some(c) => Some(&c),
                None => None,
            },
    {
        match &self.best_config {
            Some(c) => Some(c),
            None => None,
        }
    }

    /// The best throughput measured so far, in kbps.
    pub fn best_throughput_kbps(&self) -> (t: u64)
        ensures
            t == self@.best_throughput_kbps,
    {
        self.best_throughput_kbps
    }

    /// Steps taken since the last improvement.
    pub fn stale_steps(&self) -> (s: u32)
        ensures
            s == self@.stale_steps,
    {
        self.stale_steps
    }

    /// Whether a candidate configuration is being measured.
    pub fn probe_active(&self) -> (b: bool)
        ensures
            b == self@.probe_active,
    {
        self.probe_active
    }

    fn smooth_tp(&self) -> (s: u64)
        requires
            self.recent_tp@.len() <= tp_window(),
        ensures
            s == smoothed_tp(self.recent_tp@),
    {
        let n = self.recent_tp.len();
        if n == 0 {
            return 0;
        }
        let mut total: u128 = 0;
        let mut i: usize = 0;
        while i < n
            invariant
                n == self.recent_tp@.len(),
                n <= 5,
                0 <= i <= n,
                total == sum_tp(self.recent_tp@.subrange(0, i as int)),
                total <= i * (u64::MAX as int),
            decreases n - i,
        {
            assert(self.recent_tp@.subrange(0, i + 1).drop_last() == self.recent_tp@.subrange(0, i as int));
            total = total + self.recent_tp[i] as u128;
            i = i + 1;
        }
        assert(self.recent_tp@.subrange(0, n as int) == self.recent_tp@);
        let avg = total / (n as u128);
        assert(avg <= u64::MAX) by (nonlinear_arith)
            requires
                avg == total / (n as u128),
                total <= n * (u64::MAX as int),
                1 <= n,
        ;
        avg as u64
    }

    fn flip_direction(&mut self)
        requires
            old(self).chunk_dim.direction == 1 || old(self).chunk_dim.direction == -1,
            old(self).stream_dim.direction == 1 || old(self).stream_dim.direction == -1,
            old(self).buffer_dim.direction == 1 || old(self).buffer_dim.direction == -1,
        ensures
            final(self)@ == flipped(old(self)@),
    {
        let tick = self.stale_steps % 3;
        if tick == 0 {
            self.chunk_dim.direction = -self.chunk_dim.direction;
        } else if tick == 1 {
            self.stream_dim.direction = -self.stream_dim.direction;
        } else {
            self.buffer_dim.direction = -self.buffer_dim.direction;
        }
    }

    fn restart(&mut self, base: &TuningConfig)
        ensures
            final(self)@ == restarted(old(self)@, *base),
    {
        self.chunk_dim = Dimension::new(base.chunk_size_bytes, 16_384, 1_048_576, 131_072);
        self.stream_dim = Dimension::new(base.parallel_streams as usize, 1, 8, 1);
        self.buffer_dim = Dimension::new(base.send_buffer_kb as usize, 256, 8192, 1024);
        self.chunk_dim.direction = -1;
        self.stream_dim.direction = -1;
        self.buffer_dim.direction = -1;
        self.recent_tp.clear();
    }

    fn configs_equal(&self, a: &TuningConfig, b: &TuningConfig) -> (r: bool)
        ensures
            r == configs_equal_spec(*a, *b),
    {
        a.chunk_size_bytes == b.chunk_size_bytes && a.parallel_streams == b.parallel_streams
            && a.send_buffer_kb == b.send_buffer_kb
    }

    fn record(&mut self, current: &TuningConfig, current_tp_kbps: u64)
        requires
            tuner_wf(old(self)@),
        ensures
            final(self)@ == synced(old(self)@, *current, current_tp_kbps),
            tuner_wf(final(self)@),
    {
        self.chunk_dim.current = current.chunk_size_bytes;
        self.stream_dim.current = current.parallel_streams as usize;
        self.buffer_dim.current = current.send_buffer_kb as usize;
        self.recent_tp.push(current_tp_kbps);
        if self.recent_tp.len() > 5 {
            self.recent_tp.remove(0);
        }
    }

    fn judge(&mut self, current: &TuningConfig, smooth_tp: u64)
        requires
            tuner_wf(old(self)@),
        ensures
            final(self)@ == restart_checked(
                best_initialised(probe_judged(old(self)@, *current, smooth_tp as int), *current, smooth_tp as int),
                *current,
            ),
            tuner_wf(final(self)@),
    {
        if self.probe_active {
            let improved = (smooth_tp as u128) * 100 >= (self.pre_probe_tp as u128) * 102;
            if improved {
                self.best_throughput_kbps = smooth_tp;
                self.best_config = Some(*current);
                self.stale_steps = 0;
            } else {
                self.stale_steps = self.stale_steps + 1;
                self.flip_direction();
            }
            self.probe_active = false;
            self.probe_config = None;
        }
        assert(self@ == probe_judged(old(self)@, *current, smooth_tp as int));
        if self.best_config.is_none() {
            self.best_throughput_kbps = smooth_tp;
            self.best_config = Some(*current);
        }
        if self.stale_steps >= self.max_stale {
            self.restart(current);
            self.stale_steps = 0;
        }
    }

    fn propose(&mut self, current: &TuningConfig) -> (c: TuningConfig)
        requires
            tuner_wf(old(self)@),
            tunable(*current),
            old(self)@.chunk_dim.current == current.chunk_size_bytes,
            old(self)@.stream_dim.current == current.parallel_streams as usize,
            old(self)@.buffer_dim.current == current.send_buffer_kb as usize,
        ensures
            (final(self)@, c) == proposal(old(self)@, *current),
            tuner_wf(final(self)@),
    {
        let mut candidate = *current;
        let tick = self.stale_steps % 3;
        if tick == 0 {
            candidate.chunk_size_bytes = self.chunk_dim.apply_direction();
        } else if tick == 1 {
            let new_streams = self.stream_dim.apply_direction();
            candidate.parallel_streams = new_streams as u32;
        } else {
            let new_buf = self.buffer_dim.apply_direction() as u32;
            candidate.send_buffer_kb = new_buf;
            candidate.recv_buffer_kb = new_buf;
        }
        candidate
    }

    /// One feedback cycle: record `current_tp_kbps` for `current`, judge the
    /// probe that ran since the last cycle, restart after too many stale
    /// steps, and return the next configuration to try, if it differs from
    /// `current` in a tuned field.
    pub fn step(&mut self, current: &TuningConfig, current_tp_kbps: u64) -> (r: Option<TuningConfig>)
        requires
            tuner_wf(old(self)@),
            tunable(*current),
        ensures
            (final(self)@, r) == tuner_step(old(self)@, *current, current_tp_kbps),
            tuner_wf(final(self)@),
    {
        self.record(current, current_tp_kbps);
        let smooth_tp = self.smooth_tp();
        self.judge(current, smooth_tp);
        let candidate = self.propose(current);
        if self.configs_equal(&candidate, current) {
            return None;
        }
        self.probe_active = true;
        self.probe_config = Some(candidate);
        self.pre_probe_tp = smooth_tp;
        Some(candidate)
    }
}

} // verus!

verus! {

/// A proposed configuration differs from the current one in a tuned field,
/// leaves every untuned field as it was, and keeps both socket buffers
/// equal when it moves them; a probe is running exactly when a candidate
/// was proposed; and a best configuration is always on record after a step.
pub proof fn law_step_outcome(v: TunerView, cfg: TuningConfig, tp: u64)
    ensures
        ({
            let (after, r) = tuner_step(v, cfg, tp);
            &&& after.probe_active == (r is Some)
            &&& after.best_config is Some
            &&& (r matches Some(c) ==> {
                &&& !configs_equal_spec(c, cfg)
                &&& c.write_batch_size == cfg.write_batch_size
                &&& c.worker_threads == cfg.worker_threads
                &&& c.throughput_limit_kbps == cfg.throughput_limit_kbps
                &&& c.transport_mode == cfg.transport_mode
                &&& (c.send_buffer_kb != cfg.send_buffer_kb ==> c.recv_buffer_kb == c.send_buffer_kb)
            })
        }),
{
}

/// The stale-step counter never reaches the restart threshold: after a step
/// it is below `max_stale`, or zero.
pub proof fn law_stale_below_threshold(v: TunerView, cfg: TuningConfig, tp: u64)
    ensures
        ({
            let after = tuner_step(v, cfg, tp).0;
            after.stale_steps < after.max_stale || after.stale_steps == 0
        }),
{
}

/// A move never leaves the dimension's range when it starts inside it.
pub proof fn law_moves_stay_in_range(d: Dimension)
    requires
        d.min <= d.current <= d.max,
    ensures
        d.min <= dim_moved(d).current <= d.max,
        dim_moved(d).min == d.min && dim_moved(d).max == d.max && dim_moved(d).step == d.step,
{
    lemma_dim_moved_in_range(d);
}

/// An improvement of at least 2% over the probe's starting throughput is
/// adopted: the probed configuration becomes the best and the stale count
/// resets.
pub proof fn law_improvement_adopted(v: TunerView, cfg: TuningConfig, tp: u64)
    requires
        v.probe_active,
        improves(smoothed_tp(push_tp(v.recent_tp, tp)), v.pre_probe_tp as int),
        v.max_stale > 0,
    ensures
        tuner_step(v, cfg, tp).0.best_config == Some(cfg),
        tuner_step(v, cfg, tp).0.best_throughput_kbps == smoothed_tp(push_tp(v.recent_tp, tp)) as u64,
        tuner_step(v, cfg, tp).0.stale_steps == 0,
{
}

/// A probe that did not improve throughput by 2% turns round the dimension
/// that moves next: the stale count goes up by one, and the dimension it
/// picks (chunk size, streams, buffers for a count of 0, 1, 2 modulo 3)
/// has its direction negated, every other part of the dimensions kept.  The
/// best configuration stays, and the probe is over.
pub proof fn law_rejected_probe_turns_round(v: TunerView, cfg: TuningConfig, smooth: int)
    requires
        tuner_wf(v),
        v.probe_active,
        smooth * 100 < (v.pre_probe_tp as int) * 102,
    ensures
        ({
            let j = probe_judged(v, cfg, smooth);
            let k = j.stale_steps % 3;
            &&& j.stale_steps == v.stale_steps + 1
            &&& !j.probe_active && j.probe_config is None
            &&& j.best_config == v.best_config && j.best_throughput_kbps == v.best_throughput_kbps
            &&& k == 0 ==> j.chunk_dim.direction == -v.chunk_dim.direction
            &&& k == 1 ==> j.stream_dim.direction == -v.stream_dim.direction
            &&& k == 2 ==> j.buffer_dim.direction == -v.buffer_dim.direction
            &&& k != 0 ==> j.chunk_dim.direction == v.chunk_dim.direction
            &&& k != 1 ==> j.stream_dim.direction == v.stream_dim.direction
            &&& k != 2 ==> j.buffer_dim.direction == v.buffer_dim.direction
            &&& j.chunk_dim.current == v.chunk_dim.current && j.stream_dim.current == v.stream_dim.current
                && j.buffer_dim.current == v.buffer_dim.current
        }),
{
}

/// A probe that raised throughput by 2% or more is adopted: the probed
/// configuration becomes the best, the stale count resets, and no
/// dimension turns round.
pub proof fn law_accepted_probe_keeps_course(v: TunerView, cfg: TuningConfig, smooth: int)
    requires
        v.probe_active,
        smooth * 100 >= (v.pre_probe_tp as int) * 102,
    ensures
        ({
            let j = probe_judged(v, cfg, smooth);
            &&& j.best_config == Some(cfg) && j.best_throughput_kbps == smooth as u64
            &&& j.stale_steps == 0
            &&& !j.probe_active
            &&& j.chunk_dim == v.chunk_dim && j.stream_dim == v.stream_dim && j.buffer_dim == v.buffer_dim
        }),
{
}

/// After a rejected probe the next move goes the other way: when the probe
/// did not gain 2%, no restart is due, and the configuration sits a full
/// step inside the range of the dimension picked next, the candidate moves
/// that field by one step against the dimension's previous direction
/// (chunk size by 128 KB, streams by one, both buffers by 1 MB).
pub proof fn law_rejected_probe_reverses_move(v: TunerView, cfg: TuningConfig, tp: u64)
    requires
        tuner_wf(v),
        v.probe_active,
        smoothed_tp(push_tp(v.recent_tp, tp)) * 100 < (v.pre_probe_tp as int) * 102,
        v.stale_steps + 1 < v.max_stale,
        tunable(cfg),
    ensures
        ({
            let k = (v.stale_steps + 1) % 3;
            let r = tuner_step(v, cfg, tp).1;
            &&& (k == 0 && 16_384 + 131_072 <= cfg.chunk_size_bytes <= 1_048_576 - 131_072) ==> r == Some(
                TuningConfig {
                    chunk_size_bytes: (if v.chunk_dim.direction > 0 {
                        cfg.chunk_size_bytes - 131_072
                    } else {
                        cfg.chunk_size_bytes + 131_072
                    }) as usize,
                    ..cfg
                },
            )
            &&& (k == 1 && 2 <= cfg.parallel_streams <= 7) ==> r == Some(
                TuningConfig {
                    parallel_streams: (if v.stream_dim.direction > 0 {
                        cfg.parallel_streams - 1
                    } else {
                        cfg.parallel_streams + 1
                    }) as u32,
                    ..cfg
                },
            )
            &&& (k == 2 && 256 + 1024 <= cfg.send_buffer_kb <= 8192 - 1024) ==> {
                let b = (if v.buffer_dim.direction > 0 {
                    cfg.send_buffer_kb - 1024
                } else {
                    cfg.send_buffer_kb + 1024
                }) as u32;
                r == Some(TuningConfig { send_buffer_kb: b, recv_buffer_kb: b, ..cfg })
            }
        }),
{
}

} // verus!
