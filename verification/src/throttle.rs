//! The throttle governor: it watches the engine's own CPU usage and sets the
//! interval at which everything else is refreshed.
//!
//! Usage is counted in thousandths of a percent and time in milliseconds on
//! a clock that the caller reads, so every threshold is exact.

use std::collections::VecDeque;
use vstd::prelude::*;

verus! {

/// Usage above which the breaker counts a reading as high: 5%.
pub const BREAKER_THRESHOLD: u64 = 5000;

/// How long usage must stay high before the breaker opens: 10 s.
pub const BREAKER_DURATION_MS: u64 = 10000;

/// How long the breaker stays open before it tests again: 30 s.
pub const BREAKER_COOLDOWN_MS: u64 = 30000;

/// The longest refresh interval: 10 s.
pub const INTERVAL_EMERGENCY_MS: u64 = 10000;

/// The refresh interval while usage is above the configured limit: 5 s.
pub const INTERVAL_OVER_LIMIT_MS: u64 = 5000;

/// The refresh interval while usage is above 1%: 2 s.
pub const INTERVAL_NORMAL_MS: u64 = 2000;

/// Usage above which the interval is no longer the base interval: 1%.
pub const USAGE_LOW: u64 = 1000;

/// The number of readings that are kept.
pub const HISTORY_CAPACITY: usize = 60;

/// The state of the circuit breaker.
#[derive(Debug, Clone, Copy, PartialEq, Eq, Structural)]
pub enum BreakerState {
    /// Normal operation.
    Closed,
    /// Tripped: refreshes are held back.
    Open,
    /// Cooled down: the next reading decides.
    HalfOpen,
}

/// The circuit breaker: it opens when usage stays high, and closes again
/// when usage has come down after a cooldown.
#[derive(Debug, Clone, Copy, PartialEq, Eq, Structural)]
pub struct CircuitBreaker {
    pub threshold: u64,
    pub duration_ms: u64,
    pub cooldown_ms: u64,
    pub state: BreakerState,
    /// When the breaker opened.
    pub triggered_at: Option<u64>,
    /// When usage was first seen high in the current run of high readings.
    pub high_usage_start: Option<u64>,
}

/// The time from `earlier` to `now`, or 0 where `earlier` is not earlier.
pub open spec fn elapsed(now: u64, earlier: u64) -> nat {
    if now >= earlier {
        (now - earlier) as nat
    } else {
        0
    }
}

/// The breaker after a reading of `usage` at time `now`.
pub open spec fn breaker_step(b: CircuitBreaker, usage: u64, now: u64) -> CircuitBreaker {
    match b.state {
        BreakerState::Closed => if usage > b.threshold {
            match b.high_usage_start {
                Some(start) => if elapsed(now, start) > b.duration_ms {
                    CircuitBreaker {
                        state: BreakerState::Open,
                        triggered_at: Some(now),
                        high_usage_start: None,
                        ..b
                    }
                } else {
                    b
                },
                None => CircuitBreaker { high_usage_start: Some(now), ..b },
            }
        } else {
            CircuitBreaker { high_usage_start: None, ..b }
        },
        BreakerState::Open => match b.triggered_at {
            Some(at) => if elapsed(now, at) > b.cooldown_ms {
                CircuitBreaker { state: BreakerState::HalfOpen, ..b }
            } else {
                b
            },
            None => b,
        },
        BreakerState::HalfOpen => if usage < b.threshold {
            CircuitBreaker { state: BreakerState::Closed, triggered_at: None, ..b }
        } else {
            CircuitBreaker { state: BreakerState::Open, triggered_at: Some(now), ..b }
        },
    }
}

/// The refresh interval for a usage reading while the breaker is not open.
pub open spec fn adaptive_interval(usage: u64, max_cpu: u64, base_interval_ms: u64) -> u64 {
    if usage > 5000 {
        10000
    } else if usage > max_cpu {
        5000
    } else if usage > 1000 {
        2000
    } else {
        base_interval_ms
    }
}

/// The refresh interval: the longest one while the breaker is open, else the
/// one that the usage calls for.
pub open spec fn interval_for(
    state: BreakerState,
    usage: u64,
    max_cpu: u64,
    base_interval_ms: u64,
) -> u64 {
    if state == BreakerState::Open {
        10000
    } else {
        adaptive_interval(usage, max_cpu, base_interval_ms)
    }
}

/// The last 60 readings of `history`.
pub open spec fn bounded(history: Seq<(u64, u64)>) -> Seq<(u64, u64)> {
    if history.len() > 60 {
        history.subrange(history.len() - 60, history.len() as int)
    } else {
        history
    }
}

/// A reading taken at `at` lies in the last `seconds` before `now`.
pub open spec fn in_window(at: u64, now: u64, seconds: u64) -> bool {
    at + seconds * 1000 > now
}

/// The sum of the first `n` readings of `history` that lie in the window.
pub open spec fn window_sum(history: Seq<(u64, u64)>, now: u64, seconds: u64, n: int) -> nat
    decreases n,
{
    if n <= 0 || n > history.len() {
        0
    } else if in_window(history[n - 1].0, now, seconds) {
        window_sum(history, now, seconds, n - 1) + history[n - 1].1 as nat
    } else {
        window_sum(history, now, seconds, n - 1)
    }
}

/// The number of the first `n` readings of `history` that lie in the window.
pub open spec fn window_count(history: Seq<(u64, u64)>, now: u64, seconds: u64, n: int) -> nat
    decreases n,
{
    if n <= 0 || n > history.len() {
        0
    } else if in_window(history[n - 1].0, now, seconds) {
        window_count(history, now, seconds, n - 1) + 1
    } else {
        window_count(history, now, seconds, n - 1)
    }
}

/// What the throttler holds, as plain values.
pub struct ThrottlerState {
    pub max_cpu: u64,
    pub current_usage: u64,
    pub base_interval_ms: u64,
    pub sample_interval_ms: u64,
    pub history: Seq<(u64, u64)>,
    pub breaker: CircuitBreaker,
}

impl ThrottlerState {
    /// The mean of the readings in the last `seconds` before `now`, rounded
    /// down; the current usage where there is none.
    pub open spec fn average(self, seconds: u64, now: u64) -> nat {
        let n = self.history.len() as int;
        if window_count(self.history, now, seconds, n) == 0 {
            self.current_usage as nat
        } else {
            window_sum(self.history, now, seconds, n) / window_count(self.history, now, seconds, n)
        }
    }

    /// The mean of the readings in the last 5 seconds exceeds one and a half
    /// times the configured limit.
    pub open spec fn over_limit(self, now: u64) -> bool {
        let n = self.history.len() as int;
        if window_count(self.history, now, 5, n) == 0 {
            2 * self.current_usage > 3 * self.max_cpu
        } else {
            2 * window_sum(self.history, now, 5, n) > 3 * self.max_cpu * window_count(
                self.history,
                now,
                5,
                n,
            )
        }
    }

    /// Whether a refresh cycle is skipped at time `now`.
    pub open spec fn skips(self, now: u64) -> bool {
        self.breaker.state == BreakerState::Open || self.over_limit(now)
    }

    /// The state after a reading of `usage` at time `now`.
    pub open spec fn after_reading(self, usage: u64, now: u64) -> ThrottlerState {
        let breaker = breaker_step(self.breaker, usage, now);
        ThrottlerState {
            current_usage: usage,
            history: bounded(self.history.push((now, usage))),
            breaker,
            sample_interval_ms: interval_for(
                breaker.state,
                usage,
                self.max_cpu,
                self.base_interval_ms,
            ),
            ..self
        }
    }
}

/// The breaker as it starts: closed, nothing recorded.
pub open spec fn fresh_breaker() -> CircuitBreaker {
    CircuitBreaker {
        threshold: 5000,
        duration_ms: 10000,
        cooldown_ms: 30000,
        state: BreakerState::Closed,
        triggered_at: None,
        high_usage_start: None,
    }
}

impl CircuitBreaker {
    /// A closed breaker with the standard thresholds.
    pub fn new() -> (b: Self)
        ensures
            b == fresh_breaker(),
    {
        CircuitBreaker {
            threshold: BREAKER_THRESHOLD,
            duration_ms: BREAKER_DURATION_MS,
            cooldown_ms: BREAKER_COOLDOWN_MS,
            state: BreakerState::Closed,
            triggered_at: None,
            high_usage_start: None,
        }
    }

    /// Takes a reading of `usage` at time `now`.
    ///
    /// Closed: a run of high readings that lasts longer than the duration
    /// opens the breaker; a reading that is not high ends the run. Open:
    /// after the cooldown the breaker is half open. Half open: a reading
    /// below the threshold closes it, any other opens it again.
    pub fn update(&mut self, usage: u64, now: u64)
        ensures
            *final(self) == breaker_step(*old(self), usage, now),
    {
        match self.state {
            BreakerState::Closed => {
                if usage > self.threshold {
                    match self.high_usage_start {
                        Some(start) => {
                            if time_since(now, start) > self.duration_ms {
                                self.state = BreakerState::Open;
                                self.triggered_at = Some(now);
                                self.high_usage_start = None;
                            }
                        },
                        None => {
                            self.high_usage_start = Some(now);
                        },
                    }
                } else {
                    self.high_usage_start = None;
                }
            },
            BreakerState::Open => {
                match self.triggered_at {
                    Some(at) => {
                        if time_since(now, at) > self.cooldown_ms {
                            self.state = BreakerState::HalfOpen;
                        }
                    },
                    None => {},
                }
            },
            BreakerState::HalfOpen => {
                if usage < self.threshold {
                    self.state = BreakerState::Closed;
                    self.triggered_at = None;
                } else {
                    self.state = BreakerState::Open;
                    self.triggered_at = Some(now);
                }
            },
        }
    }

    /// Whether the breaker is open.
    pub fn is_open(&self) -> (open: bool)
        ensures
            open == (self.state == BreakerState::Open),
    {
        match self.state {
            BreakerState::Open => true,
            _ => false,
        }
    }

    /// Closes the breaker and forgets what it recorded.
    pub fn reset(&mut self)
        ensures
            *final(self) == (CircuitBreaker {
                state: BreakerState::Closed,
                triggered_at: None,
                high_usage_start: None,
                ..*old(self)
            }),
    {
        self.state = BreakerState::Closed;
        self.triggered_at = None;
        self.high_usage_start = None;
    }
}

/// The time from `earlier` to `now`, or 0 where `earlier` is not earlier.
pub fn time_since(now: u64, earlier: u64) -> (ms: u64)
    ensures
        ms == elapsed(now, earlier),
{
    if now >= earlier {
        now - earlier
    } else {
        0
    }
}

/// Limits the engine's own CPU usage by adapting the refresh interval, with
/// a circuit breaker for sustained overload.
#[derive(Debug, Clone)]
pub struct CpuThrottler {
    max_cpu: u64,
    current_usage: u64,
    base_interval_ms: u64,
    sample_interval_ms: u64,
    usage_history: VecDeque<(u64, u64)>,
    breaker: CircuitBreaker,
}

/// A summary of the throttler for display.
#[derive(Debug, Clone)]
pub struct ThrottleStats {
    pub current_usage: u64,
    pub average_usage_5s: u64,
    pub average_usage_60s: u64,
    pub current_interval_ms: u64,
    pub breaker_state: String,
    pub is_throttled: bool,
}

/// The name of a breaker state.
pub open spec fn state_name(state: BreakerState) -> Seq<char> {
    match state {
        BreakerState::Closed => "Closed"@,
        BreakerState::Open => "Open"@,
        BreakerState::HalfOpen => "HalfOpen"@,
    }
}

impl View for CpuThrottler {
    type V = ThrottlerState;

    closed spec fn view(&self) -> ThrottlerState {
        ThrottlerState {
            max_cpu: self.max_cpu,
            current_usage: self.current_usage,
            base_interval_ms: self.base_interval_ms,
            sample_interval_ms: self.sample_interval_ms,
            history: self.usage_history@,
            breaker: self.breaker,
        }
    }
}

impl CpuThrottler {
    /// No more readings are kept than the history has room for.
    pub open spec fn well_formed(&self) -> bool {
        self@.history.len() <= 60
    }

    /// A throttler that allows `max_cpu` (thousandths of a percent) and
    /// refreshes every `base_interval_ms` while usage is low.
    pub fn new(max_cpu: u64, base_interval_ms: u64) -> (t: Self)
        ensures
            t.well_formed(),
            t@ == (ThrottlerState {
                max_cpu,
                current_usage: 0,
                base_interval_ms,
                sample_interval_ms: base_interval_ms,
                history: Seq::empty(),
                breaker: fresh_breaker(),
            }),
    {
        CpuThrottler {
            max_cpu,
            current_usage: 0,
            base_interval_ms,
            sample_interval_ms: base_interval_ms,
            usage_history: VecDeque::with_capacity(HISTORY_CAPACITY),
            breaker: CircuitBreaker::new(),
        }
    }

    /// Records a reading of `usage` taken at `now`, lets the breaker see it,
    /// and sets the refresh interval anew.
    pub fn update_usage(&mut self, usage: u64, now: u64)
        requires
            old(self).well_formed(),
        ensures
            final(self).well_formed(),
            final(self)@ == old(self)@.after_reading(usage, now),
    {
        self.current_usage = usage;
        self.usage_history.push_back((now, usage));
        let ghost pushed = self.usage_history@;
        while self.usage_history.len() > HISTORY_CAPACITY
            invariant
                self.usage_history@.len() <= pushed.len(),
                self.usage_history@.len() >= 60 || self.usage_history@.len() == pushed.len(),
                pushed.len() <= 61,
                self.usage_history@ == pushed.subrange(
                    pushed.len() - self.usage_history@.len(),
                    pushed.len() as int,
                ),
                self.max_cpu == old(self).max_cpu,
                self.base_interval_ms == old(self).base_interval_ms,
                self.breaker == old(self).breaker,
                self.current_usage == usage,
            decreases self.usage_history@.len(),
        {
            self.usage_history.pop_front();
        }
        assert(self.usage_history@ =~= bounded(pushed));
        self.breaker.update(usage, now);
        self.sample_interval_ms = self.calculate_interval();
    }

    /// The refresh interval that the current state calls for: 10 s while the
    /// breaker is open; else 10 s above 5% usage, 5 s above the configured
    /// limit, 2 s above 1%, and the base interval below that.
    pub fn calculate_interval(&self) -> (ms: u64)
        ensures
            ms == interval_for(
                self@.breaker.state,
                self@.current_usage,
                self@.max_cpu,
                self@.base_interval_ms,
            ),
    {
        if self.breaker.is_open() {
            return INTERVAL_EMERGENCY_MS;
        }
        if self.current_usage > BREAKER_THRESHOLD {
            INTERVAL_EMERGENCY_MS
        } else if self.current_usage > self.max_cpu {
            INTERVAL_OVER_LIMIT_MS
        } else if self.current_usage > USAGE_LOW {
            INTERVAL_NORMAL_MS
        } else {
            self.base_interval_ms
        }
    }

    /// The refresh interval that was set at the last reading.
    pub fn get_refresh_interval(&self) -> (ms: u64)
        ensures
            ms == self@.sample_interval_ms,
    {
        self.sample_interval_ms
    }

    /// The sum and the number of the readings in the last `seconds` before
    /// `now`.
    fn window_totals(&self, seconds: u64, now: u64) -> (totals: (u128, usize))
        requires
            self.well_formed(),
        ensures
            totals.0 == window_sum(self@.history, now, seconds, self@.history.len() as int),
            totals.1 == window_count(self@.history, now, seconds, self@.history.len() as int),
            totals.1 <= 60,
    {
        let mut sum: u128 = 0;
        let mut count: usize = 0;
        let mut i: usize = 0;
        while i < self.usage_history.len()
            invariant
                i <= self.usage_history@.len() <= 60,
                sum == window_sum(self.usage_history@, now, seconds, i as int),
                count == window_count(self.usage_history@, now, seconds, i as int),
                count <= i,
                sum <= i * 0xffff_ffff_ffff_ffff,
            decreases self.usage_history@.len() - i,
        {
            let (at, usage) = self.usage_history[i];
            assert(seconds * 1000 <= 0xffff_ffff_ffff_ffff * 1000) by (nonlinear_arith)
                requires
                    seconds <= 0xffff_ffff_ffff_ffff,
            ;
            if (at as u128) + (seconds as u128) * 1000 > (now as u128) {
                sum = sum + usage as u128;
                count = count + 1;
            }
            i = i + 1;
        }
        (sum, count)
    }

    /// The mean usage over the last `seconds` before `now`, rounded down; the
    /// current usage where no reading lies in that window.
    pub fn get_average_usage(&self, seconds: u64, now: u64) -> (usage: u64)
        requires
            self.well_formed(),
        ensures
            usage == self@.average(seconds, now),
    {
        let (sum, count) = self.window_totals(seconds, now);
        if count == 0 {
            return self.current_usage;
        }
        proof {
            lemma_window_bound(self@.history, now, seconds, self@.history.len() as int);
            let s = window_sum(self@.history, now, seconds, self@.history.len() as int);
            let c = window_count(self@.history, now, seconds, self@.history.len() as int);
            assert(s / c <= 0xffff_ffff_ffff_ffff) by (nonlinear_arith)
                requires
                    s <= c * 0xffff_ffff_ffff_ffff,
                    c > 0,
            ;
        }
        (sum / (count as u128)) as u64
    }

    /// Whether this refresh cycle should be skipped: the breaker is open, or
    /// the mean usage of the last 5 seconds exceeds one and a half times the
    /// configured limit.
    pub fn should_skip_update(&self, now: u64) -> (skip: bool)
        requires
            self.well_formed(),
        ensures
            skip == self@.skips(now),
    {
        if self.breaker.is_open() {
            return true;
        }
        let (sum, count) = self.window_totals(5, now);
        let limit: u128 = 3 * (self.max_cpu as u128);
        if count == 0 {
            2 * (self.current_usage as u128) > limit
        } else {
            proof {
                lemma_window_bound(self@.history, now, 5, self@.history.len() as int);
            }
            assert(limit * count <= 3 * 0xffff_ffff_ffff_ffff * 60) by (nonlinear_arith)
                requires
                    limit <= 3 * 0xffff_ffff_ffff_ffff,
                    count <= 60,
            ;
            assert(3 * self.max_cpu * count == limit * count) by (nonlinear_arith)
                requires
                    limit == 3 * self.max_cpu,
            ;
            2 * sum > limit * (count as u128)
        }
    }

    /// A summary of the throttler at time `now`.
    pub fn get_stats(&self, now: u64) -> (stats: ThrottleStats)
        requires
            self.well_formed(),
        ensures
            stats.current_usage == self@.current_usage,
            stats.average_usage_5s == self@.average(5, now),
            stats.average_usage_60s == self@.average(60, now),
            stats.current_interval_ms == self@.sample_interval_ms,
            stats.breaker_state@ == state_name(self@.breaker.state),
            stats.is_throttled == self@.skips(now),
    {
        let name = match self.breaker.state {
            BreakerState::Closed => "Closed".to_owned(),
            BreakerState::Open => "Open".to_owned(),
            BreakerState::HalfOpen => "HalfOpen".to_owned(),
        };
        ThrottleStats {
            current_usage: self.current_usage,
            average_usage_5s: self.get_average_usage(5, now),
            average_usage_60s: self.get_average_usage(60, now),
            current_interval_ms: self.sample_interval_ms,
            breaker_state: name,
            is_throttled: self.should_skip_update(now),
        }
    }

    /// Sets the allowed usage, held between 1% and 50%.
    pub fn set_max_cpu(&mut self, max_cpu: u64)
        ensures
            final(self)@ == (ThrottlerState {
                max_cpu: if max_cpu < 1000 {
                    1000
                } else if max_cpu > 50000 {
                    50000
                } else {
                    max_cpu
                },
                ..old(self)@
            }),
    {
        self.max_cpu = if max_cpu < 1000 {
            1000
        } else if max_cpu > 50000 {
            50000
        } else {
            max_cpu
        };
    }

    /// Forgets all readings, closes the breaker and goes back to the base
    /// interval.
    pub fn reset(&mut self)
        ensures
            final(self).well_formed(),
            final(self)@ == (ThrottlerState {
                current_usage: 0,
                history: Seq::empty(),
                sample_interval_ms: old(self)@.base_interval_ms,
                breaker: CircuitBreaker {
                    state: BreakerState::Closed,
                    triggered_at: None,
                    high_usage_start: None,
                    ..old(self)@.breaker
                },
                ..old(self)@
            }),
    {
        self.current_usage = 0;
        self.usage_history.clear();
        self.sample_interval_ms = self.base_interval_ms;
        self.breaker.reset();
    }
}

impl Default for CpuThrottler {
    /// A throttler that allows 2% and refreshes every second.
    fn default() -> (t: Self)
        ensures
            t.well_formed(),
            t@.max_cpu == 2000,
            t@.base_interval_ms == 1000,
    {
        CpuThrottler::new(2000, 1000)
    }
}

/// The readings in a window sum to no more than their number times the
/// greatest reading there can be, and there are no more of them than were
/// looked at.
pub proof fn lemma_window_bound(history: Seq<(u64, u64)>, now: u64, seconds: u64, n: int)
    requires
        0 <= n <= history.len(),
    ensures
        window_count(history, now, seconds, n) <= n,
        window_sum(history, now, seconds, n) <= window_count(history, now, seconds, n)
            * 0xffff_ffff_ffff_ffff,
    decreases n,
{
    if n > 0 {
        lemma_window_bound(history, now, seconds, n - 1);
    }
}

/// While the breaker is not open and the base interval is at most 2 s, a
/// higher usage never gives a shorter interval.
pub proof fn lemma_interval_monotonic(
    state: BreakerState,
    low: u64,
    high: u64,
    max_cpu: u64,
    base_interval_ms: u64,
)
    requires
        low <= high,
        base_interval_ms <= 2000,
    ensures
        interval_for(state, low, max_cpu, base_interval_ms) <= interval_for(
            state,
            high,
            max_cpu,
            base_interval_ms,
        ),
        interval_for(state, high, max_cpu, base_interval_ms) <= 10000,
{
}

/// Once the breaker is open, every reading taken before the cooldown has run
/// out leaves it open, and the interval at 10 s, however low the usage.
pub proof fn lemma_open_until_cooldown(t: ThrottlerState, usage: u64, now: u64)
    requires
        t.breaker.state == BreakerState::Open,
        t.breaker.triggered_at is Some,
        elapsed(now, t.breaker.triggered_at->0) <= t.breaker.cooldown_ms,
    ensures
        t.after_reading(usage, now).breaker.state == BreakerState::Open,
        t.after_reading(usage, now).sample_interval_ms == 10000,
        t.after_reading(usage, now).skips(now),
{
}

/// A closed breaker opens at a high reading that comes more than the
/// duration after the first of an unbroken run of high readings, and at no
/// other reading.
pub proof fn lemma_breaker_opens(b: CircuitBreaker, usage: u64, now: u64)
    requires
        b.state == BreakerState::Closed,
    ensures
        breaker_step(b, usage, now).state == BreakerState::Open <==> (usage > b.threshold
            && b.high_usage_start is Some && elapsed(now, b.high_usage_start->0) > b.duration_ms),
        breaker_step(b, usage, now).state != BreakerState::HalfOpen,
{
}

} // verus!
