//! The responsiveness probe: what a round of diagnostic signals says about
//! a process.
//!
//! The caller sends an existence check and the diagnostic signals, a
//! terminate and a continue, and hands over what it observed. Never a kill or
//! a stop: a probe sends only what a process can catch and answer. A
//! protected process is sent nothing; its diagnostic signals count as
//! refused. A process that turns out to be gone is not unresponsive, and is
//! never reported as unkillable.

use crate::kernel::{existence_of, is_protected, protected, Existence, OsReply, EPERM};
use crate::platform::{str_of, ProcessResponsiveness, Signal};
use std::collections::HashMap;
use vstd::prelude::*;

verus! {

broadcast use vstd::std_specs::hash::group_hash_axioms;

/// The time window for each signal of a probe that decides about
/// "unkillable".
pub const VERDICT_TIMEOUT_MS: u64 = 1000;

/// The time window for each signal of a probe that only reports.
pub const REPORT_TIMEOUT_MS: u64 = 200;

/// The time window by which the failed signals of an unkillable process are
/// recorded.
pub const RECORD_TIMEOUT_MS: u64 = 100;

/// How many signals of a probe must fail for the verdict "unkillable".
pub const UNKILLABLE_THRESHOLD: usize = 2;

/// How many response times are remembered for one process.
pub const RESPONSE_TIMES_KEPT: usize = 10;

/// What was observed of one signal of a probe.
#[derive(Debug, Clone, Copy, PartialEq, Eq, Structural)]
pub struct SignalObservation {
    /// The number under which the host knows the signal; 0 for the
    /// existence check.
    pub signal: i32,
    /// What the host answered when the signal was sent.
    pub sent: OsReply,
    /// What the host answered to the existence check that followed, where
    /// one followed.
    pub after: Option<OsReply>,
    /// The time from sending to the end of the observation.
    pub elapsed_ms: u64,
}

/// The observation shows that the process does not exist.
pub open spec fn shows_absence(o: SignalObservation) -> bool {
    existence_of(o.sent) == Existence::Absent || (o.after matches Some(a) && existence_of(a)
        == Existence::Absent)
}

/// The existence check succeeded: the host found the process.
pub open spec fn check_succeeded(o: SignalObservation) -> bool {
    o.sent.rc == 0
}

/// The diagnostic signal succeeded: the host accepted it, and within the
/// window the process was either seen again or seen to have exited.
pub open spec fn diagnostic_succeeded(o: SignalObservation, timeout_ms: u64) -> bool {
    &&& o.sent.rc == 0
    &&& o.elapsed_ms < timeout_ms
    &&& o.after matches Some(a) && existence_of(a) != Existence::Unknown
}

/// One of the first `n` observations shows that the process does not exist.
pub open spec fn absence_in(diagnostics: Seq<SignalObservation>, n: int) -> bool
    decreases n,
{
    if n <= 0 || n > diagnostics.len() {
        false
    } else {
        absence_in(diagnostics, n - 1) || shows_absence(diagnostics[n - 1])
    }
}

/// The probe has confirmed that the process does not exist.
pub open spec fn confirmed_absent(
    existence: SignalObservation,
    diagnostics: Seq<SignalObservation>,
) -> bool {
    shows_absence(existence) || absence_in(diagnostics, diagnostics.len() as int)
}

/// How many of the first `n` diagnostic signals failed.
pub open spec fn failures_in(diagnostics: Seq<SignalObservation>, timeout_ms: u64, n: int) -> nat
    decreases n,
{
    if n <= 0 || n > diagnostics.len() {
        0
    } else if diagnostic_succeeded(diagnostics[n - 1], timeout_ms) {
        failures_in(diagnostics, timeout_ms, n - 1)
    } else {
        failures_in(diagnostics, timeout_ms, n - 1) + 1
    }
}

/// How many signals of the probe failed, the existence check included.
pub open spec fn failed_count(
    existence: SignalObservation,
    diagnostics: Seq<SignalObservation>,
    timeout_ms: u64,
) -> nat {
    failures_in(diagnostics, timeout_ms, diagnostics.len() as int) + if check_succeeded(
        existence,
    ) {
        0nat
    } else {
        1nat
    }
}

/// The verdict of a probe: the process is likely unkillable if it has not
/// been found absent and at least `threshold` signals failed.
pub open spec fn likely_unkillable(
    existence: SignalObservation,
    diagnostics: Seq<SignalObservation>,
    timeout_ms: u64,
    threshold: usize,
) -> bool {
    !confirmed_absent(existence, diagnostics) && failed_count(existence, diagnostics, timeout_ms)
        >= threshold
}

/// The results of the first `n` diagnostic signals, filed under the signals'
/// numbers on top of `base`; a later result for a number replaces an earlier
/// one.
pub open spec fn results_in(
    base: Map<i32, bool>,
    diagnostics: Seq<SignalObservation>,
    timeout_ms: u64,
    n: int,
) -> Map<i32, bool>
    decreases n,
{
    if n <= 0 || n > diagnostics.len() {
        base
    } else {
        results_in(base, diagnostics, timeout_ms, n - 1).insert(
            diagnostics[n - 1].signal,
            diagnostic_succeeded(diagnostics[n - 1], timeout_ms),
        )
    }
}

/// The results of all signals of a probe, filed under the signals' numbers.
pub open spec fn probe_results(
    existence: SignalObservation,
    diagnostics: Seq<SignalObservation>,
    timeout_ms: u64,
) -> Map<i32, bool> {
    results_in(
        Map::<i32, bool>::empty().insert(existence.signal, check_succeeded(existence)),
        diagnostics,
        timeout_ms,
        diagnostics.len() as int,
    )
}

/// The signal can serve as a diagnostic signal: a process can catch it and
/// answer. A kill cannot be caught, and a stop or an interrupt is not part
/// of a probe.
pub open spec fn is_diagnostic(signal: Signal) -> bool {
    signal == Signal::Terminate || signal == Signal::Continue
}

/// The diagnostic signals of a probe, in this order: a terminate and a
/// continue. They follow the existence check, unless that has shown the
/// process absent: then there is nothing to probe.
pub open spec fn probe_signals(existence: SignalObservation) -> Seq<Signal> {
    if shows_absence(existence) {
        Seq::empty()
    } else {
        seq![Signal::Terminate, Signal::Continue]
    }
}

/// What is put down for a diagnostic signal that was not sent because the
/// process is protected: the signal under its number, refused for want of
/// permission, with no second look and no time spent.
pub open spec fn refused(number: i32) -> SignalObservation {
    SignalObservation {
        signal: number,
        sent: OsReply { rc: -1i32, errno: EPERM },
        after: None,
        elapsed_ms: 0,
    }
}

/// What a probe puts down for a diagnostic signal without sending it: a
/// refusal where the process is protected. For any other process the signal
/// is to be sent and observed.
pub open spec fn withheld(pid: u32, name: Option<Seq<char>>, number: i32) -> Option<
    SignalObservation,
> {
    if protected(pid, name) {
        Some(refused(number))
    } else {
        None
    }
}

/// Whether a signal can serve as a diagnostic signal.
pub fn is_diagnostic_signal(signal: Signal) -> (r: bool)
    ensures
        r == is_diagnostic(signal),
        signal == Signal::Kill || signal == Signal::Stop ==> !r,
{
    match signal {
        Signal::Terminate | Signal::Continue => true,
        _ => false,
    }
}

/// The diagnostic signals that a probe sends once the existence check has
/// been observed: a terminate and a continue, or none where the check has
/// shown the process absent. Never a kill or a stop.
pub fn diagnostic_signals(existence: &SignalObservation) -> (signals: Vec<Signal>)
    ensures
        signals@ == probe_signals(*existence),
        forall|i: int| 0 <= i < signals@.len() ==> is_diagnostic(#[trigger] signals@[i]),
{
    let mut signals: Vec<Signal> = Vec::new();
    if !observation_shows_absence(existence) {
        signals.push(Signal::Terminate);
        signals.push(Signal::Continue);
    }
    signals
}

/// Decides whether the diagnostic signal with the host's number `number` is
/// sent to process `pid`, which the host lists under `name`. A protected
/// process is sent nothing: the refusal is handed back, to be put down in
/// place of an observation, and counts as a failed signal. For any other
/// process there is nothing to put down yet: the signal is to be sent.
pub fn withheld_observation(pid: u32, name: Option<&str>, number: i32) -> (observation: Option<
    SignalObservation,
>)
    ensures
        observation == withheld(pid, str_of(name), number),
        observation matches Some(o) ==> !shows_absence(o) && forall|timeout_ms: u64|
            !diagnostic_succeeded(o, timeout_ms),
{
    if is_protected(pid, name) {
        Some(
            SignalObservation {
                signal: number,
                sent: OsReply { rc: -1, errno: EPERM },
                after: None,
                elapsed_ms: 0,
            },
        )
    } else {
        None
    }
}

/// Whether an observation shows that the process does not exist.
pub fn observation_shows_absence(o: &SignalObservation) -> (r: bool)
    ensures
        r == shows_absence(*o),
{
    if crate::kernel::check_existence(o.sent) == Existence::Absent {
        return true;
    }
    match o.after {
        Some(a) => crate::kernel::check_existence(a) == Existence::Absent,
        None => false,
    }
}

/// Whether a diagnostic signal succeeded within its window.
pub fn signal_succeeded(o: &SignalObservation, timeout_ms: u64) -> (r: bool)
    ensures
        r == diagnostic_succeeded(*o, timeout_ms),
{
    if o.sent.rc != 0 || o.elapsed_ms >= timeout_ms {
        return false;
    }
    match o.after {
        Some(a) => crate::kernel::check_existence(a) != Existence::Unknown,
        None => false,
    }
}

/// Sums up a probe: `existence` is what the existence check showed,
/// `diagnostics` what the diagnostic signals showed, each judged by the
/// window `timeout_ms`.
///
/// The process responds if the existence check found it. It is likely
/// unkillable if at least `threshold` of all signals failed, unless one of
/// the observations shows that the process does not exist.
pub fn evaluate_probe(
    existence: &SignalObservation,
    diagnostics: &Vec<SignalObservation>,
    timeout_ms: u64,
    threshold: usize,
) -> (report: ProcessResponsiveness)
    ensures
        report.responds_to_signals == check_succeeded(*existence),
        report.last_response_time_ms == if check_succeeded(*existence) {
            Some(existence.elapsed_ms)
        } else {
            None
        },
        report.signal_test_results@ == probe_results(*existence, diagnostics@, timeout_ms),
        report.is_likely_unkillable == likely_unkillable(
            *existence,
            diagnostics@,
            timeout_ms,
            threshold,
        ),
        confirmed_absent(*existence, diagnostics@) ==> !report.is_likely_unkillable,
{
    let responds = existence.sent.rc == 0;
    let mut results: HashMap<i32, bool> = HashMap::new();
    results.insert(existence.signal, responds);
    let mut absent = observation_shows_absence(existence);
    let mut failed: usize = 0;
    let mut i: usize = 0;
    while i < diagnostics.len()
        invariant
            i <= diagnostics@.len(),
            results@ == results_in(
                Map::<i32, bool>::empty().insert(existence.signal, check_succeeded(*existence)),
                diagnostics@,
                timeout_ms,
                i as int,
            ),
            absent == (shows_absence(*existence) || absence_in(diagnostics@, i as int)),
            failed == failures_in(diagnostics@, timeout_ms, i as int),
            failed <= i,
        decreases diagnostics@.len() - i,
    {
        let ok = signal_succeeded(&diagnostics[i], timeout_ms);
        results.insert(diagnostics[i].signal, ok);
        if !ok {
            failed = failed + 1;
        }
        if observation_shows_absence(&diagnostics[i]) {
            absent = true;
        }
        i = i + 1;
    }
    ProcessResponsiveness {
        responds_to_signals: responds,
        last_response_time_ms: if responds {
            Some(existence.elapsed_ms)
        } else {
            None
        },
        signal_test_results: results,
        is_likely_unkillable: !absent && (failed as u128) + (if responds {
            0u128
        } else {
            1u128
        }) >= threshold as u128,
    }
}

/// What earlier probes recorded about one process.
#[derive(Debug, Clone)]
pub struct ResponseHistory {
    /// When the process was last probed.
    pub last_test_time_ms: u64,
    /// The latest response times of its existence checks, oldest first.
    pub response_times_ms: Vec<u64>,
    /// The numbers of the signals that it has failed, each once.
    pub failed_signals: Vec<i32>,
    pub is_marked_unkillable: bool,
}

/// What a history holds, as plain values.
pub struct HistoryView {
    pub last_test_time_ms: u64,
    pub response_times_ms: Seq<u64>,
    pub failed_signals: Seq<i32>,
    pub is_marked_unkillable: bool,
}

impl View for ResponseHistory {
    type V = HistoryView;

    open spec fn view(&self) -> HistoryView {
        HistoryView {
            last_test_time_ms: self.last_test_time_ms,
            response_times_ms: self.response_times_ms@,
            failed_signals: self.failed_signals@,
            is_marked_unkillable: self.is_marked_unkillable,
        }
    }
}

/// The history of a process that has not been probed before.
pub open spec fn blank_history(now: u64) -> HistoryView {
    HistoryView {
        last_test_time_ms: now,
        response_times_ms: Seq::empty(),
        failed_signals: Seq::empty(),
        is_marked_unkillable: false,
    }
}

/// `times` with one more response time, cut down to the latest ten.
pub open spec fn with_response_time(times: Seq<u64>, latency: Option<u64>) -> Seq<u64> {
    match latency {
        None => times,
        Some(ms) => if times.len() >= 10 {
            times.subrange(times.len() - 9, times.len() as int).push(ms)
        } else {
            times.push(ms)
        },
    }
}

/// `failed` with `signal` added, unless it is there already.
pub open spec fn with_failed_signal(failed: Seq<i32>, signal: i32) -> Seq<i32> {
    if failed.contains(signal) {
        failed
    } else {
        failed.push(signal)
    }
}

/// `failed` with those of the first `n` diagnostic signals added that did
/// not succeed within the recording window.
pub open spec fn with_failures(failed: Seq<i32>, diagnostics: Seq<SignalObservation>, n: int) -> Seq<
    i32,
>
    decreases n,
{
    if n <= 0 || n > diagnostics.len() {
        failed
    } else if diagnostic_succeeded(diagnostics[n - 1], 100) {
        with_failures(failed, diagnostics, n - 1)
    } else {
        with_failed_signal(with_failures(failed, diagnostics, n - 1), diagnostics[n - 1].signal)
    }
}

/// The history after a probe at time `now` with the verdict `unkillable`.
///
/// The time of the probe and the verdict are noted, and the response time
/// of the existence check where it succeeded. Under the verdict
/// "unkillable" the signals that failed are noted too: the existence check
/// if it failed, and each diagnostic signal that did not succeed within the
/// recording window.
pub open spec fn history_after(
    before: HistoryView,
    now: u64,
    unkillable: bool,
    existence: SignalObservation,
    diagnostics: Seq<SignalObservation>,
) -> HistoryView {
    HistoryView {
        last_test_time_ms: now,
        response_times_ms: with_response_time(
            before.response_times_ms,
            if check_succeeded(existence) {
                Some(existence.elapsed_ms)
            } else {
                None
            },
        ),
        failed_signals: if unkillable {
            with_failures(
                if check_succeeded(existence) {
                    before.failed_signals
                } else {
                    with_failed_signal(before.failed_signals, existence.signal)
                },
                diagnostics,
                diagnostics.len() as int,
            )
        } else {
            before.failed_signals
        },
        is_marked_unkillable: unkillable,
    }
}

impl ResponseHistory {
    /// The history of a process that is probed for the first time at `now`.
    pub fn new(now: u64) -> (history: Self)
        ensures
            history@ == blank_history(now),
    {
        ResponseHistory {
            last_test_time_ms: now,
            response_times_ms: Vec::new(),
            failed_signals: Vec::new(),
            is_marked_unkillable: false,
        }
    }

    /// Notes that `signal` has failed.
    fn note_failed(&mut self, signal: i32)
        ensures
            final(self)@ == (HistoryView {
                failed_signals: with_failed_signal(old(self)@.failed_signals, signal),
                ..old(self)@
            }),
    {
        let mut i: usize = 0;
        while i < self.failed_signals.len()
            invariant
                i <= self.failed_signals@.len(),
                *self == *old(self),
                forall|j: int| 0 <= j < i ==> self.failed_signals@[j] != signal,
            decreases self.failed_signals@.len() - i,
        {
            if self.failed_signals[i] == signal {
                return ;
            }
            i = i + 1;
        }
        self.failed_signals.push(signal);
    }

    /// Notes a probe at time `now` with the verdict `unkillable`.
    pub fn record(
        &mut self,
        now: u64,
        unkillable: bool,
        existence: &SignalObservation,
        diagnostics: &Vec<SignalObservation>,
    )
        ensures
            final(self)@ == history_after(old(self)@, now, unkillable, *existence, diagnostics@),
    {
        self.last_test_time_ms = now;
        self.is_marked_unkillable = unkillable;
        if existence.sent.rc == 0 {
            if self.response_times_ms.len() >= RESPONSE_TIMES_KEPT {
                let ghost before = self.response_times_ms@;
                while self.response_times_ms.len() >= RESPONSE_TIMES_KEPT
                    invariant
                        self.response_times_ms@.len() <= before.len(),
                        self.response_times_ms@.len() >= 9,
                        self.response_times_ms@ == before.subrange(
                            before.len() - self.response_times_ms@.len(),
                            before.len() as int,
                        ),
                        self.failed_signals == old(self).failed_signals,
                        self.last_test_time_ms == now,
                        self.is_marked_unkillable == unkillable,
                    decreases self.response_times_ms@.len(),
                {
                    self.response_times_ms.remove(0);
                }
            }
            self.response_times_ms.push(existence.elapsed_ms);
        }
        if unkillable {
            if existence.sent.rc != 0 {
                self.note_failed(existence.signal);
            }
            let ghost base = self@.failed_signals;
            let mut i: usize = 0;
            while i < diagnostics.len()
                invariant
                    i <= diagnostics@.len(),
                    self@.failed_signals == with_failures(base, diagnostics@, i as int),
                    self@.last_test_time_ms == now,
                    self@.is_marked_unkillable == unkillable,
                    self@.response_times_ms == with_response_time(
                        old(self)@.response_times_ms,
                        if check_succeeded(*existence) {
                            Some(existence.elapsed_ms)
                        } else {
                            None
                        },
                    ),
                decreases diagnostics@.len() - i,
            {
                if !signal_succeeded(&diagnostics[i], RECORD_TIMEOUT_MS) {
                    self.note_failed(diagnostics[i].signal);
                }
                i = i + 1;
            }
        }
    }
}

/// A probe with two diagnostic signals files its results under the numbers
/// of the existence check and of the two signals, and under no other. Where
/// the three numbers differ, each is filed with what its own signal showed.
pub proof fn lemma_probe_results(
    existence: SignalObservation,
    first: SignalObservation,
    second: SignalObservation,
    timeout_ms: u64,
)
    ensures
        probe_results(existence, seq![first, second], timeout_ms).dom() =~= set![
            existence.signal,
            first.signal,
            second.signal,
        ],
        existence.signal != first.signal && existence.signal != second.signal && first.signal
            != second.signal ==> {
            let results = probe_results(existence, seq![first, second], timeout_ms);
            &&& results[existence.signal] == check_succeeded(existence)
            &&& results[first.signal] == diagnostic_succeeded(first, timeout_ms)
            &&& results[second.signal] == diagnostic_succeeded(second, timeout_ms)
        },
{
    reveal_with_fuel(results_in, 3);
}

/// A process that a probe has confirmed absent is never reported as likely
/// unkillable, however many of its signals failed.
pub proof fn lemma_absent_is_not_unkillable(
    existence: SignalObservation,
    diagnostics: Seq<SignalObservation>,
    timeout_ms: u64,
    threshold: usize,
)
    requires
        confirmed_absent(existence, diagnostics),
    ensures
        !likely_unkillable(existence, diagnostics, timeout_ms, threshold),
{
}

} // verus!
