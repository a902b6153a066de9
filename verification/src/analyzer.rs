//! The process analyzer: the context that remembers, from one refresh to the
//! next, what probes and measurements said about each process.
//!
//! The analyzer makes no call to the host. Its caller probes, measures and
//! lists, and hands over what it saw; the analyzer judges it and keeps what
//! later judgements need.

use crate::deadlock::{
    base_score, class_of, description_of, detect_deadlock, involved_of, is_emitted, is_idle,
    is_shared, is_uninterruptible, reported_score, with_scheduling, with_sharing,
    DeadlockEvidence, DeadlockInfo,
};
use crate::listing::ProcessSysctlInfo;
use crate::pid_cache::{lookup, without, PidCache};
use crate::platform::{clone_text, text_of, ProcessResponsiveness};
use crate::responsiveness::{
    blank_history, confirmed_absent, evaluate_probe, history_after, likely_unkillable,
    probe_results, check_succeeded, ResponseHistory, SignalObservation,
    REPORT_TIMEOUT_MS, UNKILLABLE_THRESHOLD, VERDICT_TIMEOUT_MS,
};
use crate::throttle::{elapsed, time_since};
use vstd::prelude::*;

verus! {

/// How many processes the analyzer remembers.
pub const CACHE_CAPACITY: usize = 1024;

/// The shortest time between two probes of one process.
pub const MIN_PROBE_INTERVAL_MS: u64 = 1000;

/// How many context-switch readings are kept for one process.
pub const SWITCH_SAMPLES_KEPT: usize = 10;

/// A rate above this many thousandths of a switch per second is high.
pub const HIGH_SWITCH_RATE_MILLI: u64 = 100000;

/// The context-switch readings of one process.
#[derive(Debug, Clone)]
pub struct ContextSwitchHistory {
    pub last_measurement_ms: u64,
    pub last_context_switches: u64,
    /// The latest readings, oldest first: time and count.
    pub samples: Vec<(u64, u64)>,
}

/// What a reading of the context-switch counter says.
#[derive(Debug, Clone, Copy, PartialEq, Eq, Structural)]
pub struct ContextSwitchInfo {
    pub voluntary_switches: u64,
    pub involuntary_switches: u64,
    /// Switches per second since the reading before, in thousandths.
    pub switches_per_second_milli: u64,
    pub is_high_frequency: bool,
}

/// The rate, in thousandths of a switch per second, at which `switches`
/// came in `elapsed_ms`; 0 where no time has passed, and never above
/// `u64::MAX`.
pub open spec fn switch_rate_milli(switches: nat, elapsed_ms: nat) -> nat {
    if elapsed_ms == 0 {
        0
    } else if switches * 1000000 / elapsed_ms > u64::MAX {
        u64::MAX as nat
    } else {
        switches * 1000000 / elapsed_ms
    }
}

/// The share of a counter that is put down to voluntary switches: seven
/// tenths, rounded down.
pub open spec fn voluntary_share(switches: u64) -> nat {
    switches as nat * 7 / 10
}

/// What a reading of `current` at time `now` says, given the reading before.
pub open spec fn switch_info(last_ms: u64, last_count: u64, now: u64, current: u64) -> ContextSwitchInfo {
    let gained: nat = if current >= last_count {
        (current - last_count) as nat
    } else {
        0
    };
    let rate = switch_rate_milli(gained, elapsed(now, last_ms));
    ContextSwitchInfo {
        voluntary_switches: voluntary_share(current) as u64,
        involuntary_switches: (current - voluntary_share(current)) as u64,
        switches_per_second_milli: rate as u64,
        is_high_frequency: rate > 100000,
    }
}

/// What is reported where the counter cannot be read.
pub open spec fn no_switch_info() -> ContextSwitchInfo {
    ContextSwitchInfo {
        voluntary_switches: 0,
        involuntary_switches: 0,
        switches_per_second_milli: 0,
        is_high_frequency: false,
    }
}

/// `samples` with one more reading, cut down to the latest ten.
pub open spec fn with_sample(samples: Seq<(u64, u64)>, reading: (u64, u64)) -> Seq<(u64, u64)> {
    if samples.len() >= 10 {
        samples.subrange(samples.len() - 9, samples.len() as int).push(reading)
    } else {
        samples.push(reading)
    }
}

impl ContextSwitchHistory {
    /// Takes a reading of `current` at time `now`.
    pub fn measure(&mut self, now: u64, current: u64) -> (info: ContextSwitchInfo)
        ensures
            info == switch_info(
                old(self).last_measurement_ms,
                old(self).last_context_switches,
                now,
                current,
            ),
            final(self).last_measurement_ms == now,
            final(self).last_context_switches == current,
            final(self).samples@ == with_sample(old(self).samples@, (now, current)),
    {
        let passed = time_since(now, self.last_measurement_ms);
        let gained: u64 = if current >= self.last_context_switches {
            current - self.last_context_switches
        } else {
            0
        };
        let rate: u64 = if passed == 0 {
            0
        } else {
            let scaled: u128 = (gained as u128) * 1000000 / (passed as u128);
            if scaled > u64::MAX as u128 {
                u64::MAX
            } else {
                scaled as u64
            }
        };
        if self.samples.len() >= SWITCH_SAMPLES_KEPT {
            let ghost before = self.samples@;
            while self.samples.len() >= SWITCH_SAMPLES_KEPT
                invariant
                    self.samples@.len() <= before.len(),
                    self.samples@.len() >= 9,
                    self.samples@ == before.subrange(
                        before.len() - self.samples@.len(),
                        before.len() as int,
                    ),
                    self.last_measurement_ms == old(self).last_measurement_ms,
                    self.last_context_switches == old(self).last_context_switches,
                decreases self.samples@.len(),
            {
                self.samples.remove(0);
            }
        }
        self.samples.push((now, current));
        self.last_measurement_ms = now;
        self.last_context_switches = current;
        let voluntary: u64 = ((current as u128) * 7 / 10) as u64;
        ContextSwitchInfo {
            voluntary_switches: voluntary,
            involuntary_switches: current - voluntary,
            switches_per_second_milli: rate,
            is_high_frequency: rate > HIGH_SWITCH_RATE_MILLI,
        }
    }
}

/// The analyzer for macOS hosts.
#[derive(Debug)]
pub struct MacOSProcessAnalyzer {
    response_cache: PidCache<ResponseHistory>,
    context_switch_cache: PidCache<ContextSwitchHistory>,
}

/// What the probe history says about a process when a deadlock is scored.
pub open spec fn marked_in(responses: Seq<(u32, ResponseHistory)>, pid: u32) -> bool {
    lookup(responses, pid) matches Some(h) && h.is_marked_unkillable
}

/// The seconds since a process was last probed, 0 where it never was.
pub open spec fn seconds_since_probe(
    responses: Seq<(u32, ResponseHistory)>,
    pid: u32,
    now: u64,
) -> u64 {
    match lookup(responses, pid) {
        Some(h) => (elapsed(now, h.last_test_time_ms) / 1000) as u64,
        None => 0,
    }
}

impl MacOSProcessAnalyzer {
    /// What earlier probes recorded, least recently probed process first.
    pub closed spec fn responses(&self) -> Seq<(u32, ResponseHistory)> {
        self.response_cache.entries()
    }

    /// The context-switch readings, least recently measured process first.
    pub closed spec fn switches(&self) -> Seq<(u32, ContextSwitchHistory)> {
        self.context_switch_cache.entries()
    }

    /// Both caches are in order.
    pub closed spec fn well_formed(&self) -> bool {
        &&& self.response_cache.well_formed()
        &&& self.context_switch_cache.well_formed()
        &&& self.response_cache.limit() == 1024
        &&& self.context_switch_cache.limit() == 1024
    }

    /// An analyzer that remembers nothing yet.
    pub fn new() -> (analyzer: Self)
        ensures
            analyzer.well_formed(),
            analyzer.responses() == Seq::<(u32, ResponseHistory)>::empty(),
            analyzer.switches() == Seq::<(u32, ContextSwitchHistory)>::empty(),
    {
        MacOSProcessAnalyzer {
            response_cache: PidCache::new(CACHE_CAPACITY),
            context_switch_cache: PidCache::new(CACHE_CAPACITY),
        }
    }

    /// Whether process `pid` is due for a probe at time `now`: it has not
    /// been probed yet, or not within the last second.
    pub fn should_probe(&self, pid: u32, now: u64) -> (due: bool)
        ensures
            due == match lookup(self.responses(), pid) {
                Some(h) => elapsed(now, h.last_test_time_ms) >= 1000,
                None => true,
            },
    {
        match self.response_cache.get(pid) {
            Some(h) => time_since(now, h.last_test_time_ms) >= MIN_PROBE_INTERVAL_MS,
            None => true,
        }
    }

    /// Forgets what is remembered of process `pid`, which is gone.
    pub fn forget(&mut self, pid: u32)
        requires
            old(self).well_formed(),
        ensures
            final(self).well_formed(),
            final(self).responses() == without(old(self).responses(), pid),
            final(self).switches() == without(old(self).switches(), pid),
    {
        self.response_cache.remove(pid);
        self.context_switch_cache.remove(pid);
    }

    /// Judges a probe of process `pid` made at time `now`, each signal by a
    /// window of one second, and remembers the verdict.
    ///
    /// The process is unkillable if at least two signals of the probe
    /// failed. A process that the probe found absent is not unkillable, and
    /// what was remembered of it is forgotten.
    pub fn analyze_unkillable(
        &mut self,
        pid: u32,
        now: u64,
        existence: &SignalObservation,
        diagnostics: &Vec<SignalObservation>,
    ) -> (unkillable: bool)
        requires
            old(self).well_formed(),
        ensures
            final(self).well_formed(),
            final(self).switches() == old(self).switches(),
            unkillable == likely_unkillable(*existence, diagnostics@, 1000, 2),
            confirmed_absent(*existence, diagnostics@) ==> !unkillable && final(self).responses()
                == without(old(self).responses(), pid),
            !confirmed_absent(*existence, diagnostics@) ==> lookup(final(self).responses(), pid)
                is Some && lookup(final(self).responses(), pid)->0@ == history_after(
                match lookup(old(self).responses(), pid) {
                    Some(h) => h@,
                    None => blank_history(now),
                },
                now,
                unkillable,
                *existence,
                diagnostics@,
            ),
    {
        let report = evaluate_probe(
            existence,
            diagnostics,
            VERDICT_TIMEOUT_MS,
            UNKILLABLE_THRESHOLD,
        );
        let unkillable = report.is_likely_unkillable;
        if crate::responsiveness::observation_shows_absence(existence) || any_shows_absence(
            diagnostics,
        ) {
            self.response_cache.remove(pid);
            return unkillable;
        }
        let mut history = match self.response_cache.remove(pid) {
            Some(h) => h,
            None => ResponseHistory::new(now),
        };
        history.record(now, unkillable, existence, diagnostics);
        proof {
            crate::pid_cache::lemma_without(old(self).responses(), pid);
        }
        self.response_cache.insert(pid, history);
        unkillable
    }

    /// Sums up a probe of a process, each signal judged by a window of a
    /// fifth of a second. Nothing is remembered.
    pub fn test_process_responsiveness(
        &self,
        existence: &SignalObservation,
        diagnostics: &Vec<SignalObservation>,
    ) -> (report: ProcessResponsiveness)
        ensures
            report.responds_to_signals == check_succeeded(*existence),
            report.last_response_time_ms == if check_succeeded(*existence) {
                Some(existence.elapsed_ms)
            } else {
                None
            },
            report.signal_test_results@ == probe_results(*existence, diagnostics@, 200),
            report.is_likely_unkillable == likely_unkillable(*existence, diagnostics@, 200, 2),
            confirmed_absent(*existence, diagnostics@) ==> !report.is_likely_unkillable,
    {
        evaluate_probe(existence, diagnostics, REPORT_TIMEOUT_MS, UNKILLABLE_THRESHOLD)
    }

    /// Takes a reading of the context-switch counter of process `pid` at
    /// time `now`. `reading` is the counter, where the host let it be read.
    ///
    /// Without a reading nothing is remembered and a rate of zero is
    /// reported. The first reading of a process gives a rate of zero too.
    pub fn get_context_switches(&mut self, pid: u32, now: u64, reading: Option<u64>) -> (info:
        ContextSwitchInfo)
        requires
            old(self).well_formed(),
        ensures
            final(self).well_formed(),
            final(self).responses() == old(self).responses(),
            match reading {
                None => info == no_switch_info() && final(self).switches() == old(
                    self,
                ).switches(),
                Some(current) => {
                    &&& info == match lookup(old(self).switches(), pid) {
                        Some(h) => switch_info(
                            h.last_measurement_ms,
                            h.last_context_switches,
                            now,
                            current,
                        ),
                        None => switch_info(now, current, now, current),
                    }
                    &&& lookup(final(self).switches(), pid) matches Some(h)
                    &&& h.last_measurement_ms == now
                    &&& h.last_context_switches == current
                },
            },
    {
        let current = match reading {
            Some(current) => current,
            None => {
                return ContextSwitchInfo {
                    voluntary_switches: 0,
                    involuntary_switches: 0,
                    switches_per_second_milli: 0,
                    is_high_frequency: false,
                };
            },
        };
        let mut history = match self.context_switch_cache.remove(pid) {
            Some(h) => h,
            None => ContextSwitchHistory {
                last_measurement_ms: now,
                last_context_switches: current,
                samples: Vec::new(),
            },
        };
        let info = history.measure(now, current);
        self.context_switch_cache.insert(pid, history);
        info
    }

    /// Puts together the evidence for a deadlock hypothesis about process
    /// `info.pid` at time `now`: the listing's state and wait channel, what
    /// the probe history holds, the measured switch rate, and the processes
    /// found to share its resources.
    pub fn gather_evidence(
        &self,
        now: u64,
        info: &ProcessSysctlInfo,
        switch_rate_milli: Option<u64>,
        sharing_processes: Option<Vec<u32>>,
    ) -> (evidence: DeadlockEvidence)
        ensures
            evidence.pid == info.pid,
            evidence.state_char == info.state_char,
            text_of(evidence.wait_channel) == text_of(info.wchan),
            evidence.marked_unkillable == marked_in(self.responses(), info.pid),
            evidence.unresponsive_secs == seconds_since_probe(self.responses(), info.pid, now),
            evidence.switch_rate_milli == switch_rate_milli,
            evidence.sharing_processes == sharing_processes,
    {
        let (marked, secs) = match self.response_cache.get(info.pid) {
            Some(h) => (h.is_marked_unkillable, time_since(now, h.last_test_time_ms) / 1000),
            None => (false, 0),
        };
        DeadlockEvidence {
            pid: info.pid,
            state_char: info.state_char,
            wait_channel: clone_text(&info.wchan),
            marked_unkillable: marked,
            unresponsive_secs: secs,
            switch_rate_milli,
            sharing_processes,
        }
    }

    /// Scores a deadlock hypothesis about process `info.pid` at time `now`
    /// and reports it where its confidence strictly exceeds 0.6.
    pub fn detect_deadlock(
        &self,
        now: u64,
        info: &ProcessSysctlInfo,
        switch_rate_milli: Option<u64>,
        sharing_processes: Option<Vec<u32>>,
    ) -> (found: Option<DeadlockInfo>)
        ensures
            found is Some <==> is_emitted(
                with_sharing(
                    self.score_before_scan(now, *info, switch_rate_milli),
                    is_shared(info.pid, sharing_processes),
                ),
            ),
            found matches Some(hypothesis) ==> {
                &&& hypothesis.detection_confidence == reported_score(
                    with_sharing(
                        self.score_before_scan(now, *info, switch_rate_milli),
                        is_shared(info.pid, sharing_processes),
                    ),
                )
                &&& hypothesis.deadlock_type == class_of(text_of(info.wchan))
                &&& hypothesis.resource_info@ == description_of(text_of(info.wchan))
                &&& hypothesis.involved_processes@ == involved_of(
                    info.pid,
                    self.score_before_scan(now, *info, switch_rate_milli),
                    sharing_processes,
                )
            },
    {
        let evidence = self.gather_evidence(now, info, switch_rate_milli, sharing_processes);
        detect_deadlock(&evidence)
    }

    /// The confidence in a deadlock of process `info.pid` at time `now`
    /// before the search for sharing processes.
    pub open spec fn score_before_scan(
        &self,
        now: u64,
        info: ProcessSysctlInfo,
        switch_rate_milli: Option<u64>,
    ) -> nat {
        with_scheduling(
            base_score(
                is_uninterruptible(info.state_char),
                marked_in(self.responses(), info.pid),
                seconds_since_probe(self.responses(), info.pid, now) as nat,
            ),
            is_idle(switch_rate_milli),
        )
    }
}

/// Whether one of the observations shows that the process does not exist.
fn any_shows_absence(diagnostics: &Vec<SignalObservation>) -> (r: bool)
    ensures
        r == crate::responsiveness::absence_in(diagnostics@, diagnostics@.len() as int),
{
    let mut i: usize = 0;
    while i < diagnostics.len()
        invariant
            i <= diagnostics@.len(),
            !crate::responsiveness::absence_in(diagnostics@, i as int),
        decreases diagnostics@.len() - i,
    {
        if crate::responsiveness::observation_shows_absence(&diagnostics[i]) {
            proof {
                lemma_absence_found(diagnostics@, i as int, diagnostics@.len() as int);
            }
            return true;
        }
        i = i + 1;
    }
    false
}

/// An observation that shows absence is found by every search that reaches
/// it.
proof fn lemma_absence_found(diagnostics: Seq<SignalObservation>, i: int, n: int)
    requires
        0 <= i < n <= diagnostics.len(),
        crate::responsiveness::shows_absence(diagnostics[i]),
    ensures
        crate::responsiveness::absence_in(diagnostics, n),
    decreases n,
{
    if n > i + 1 {
        lemma_absence_found(diagnostics, i, n - 1);
    }
}

} // verus!
