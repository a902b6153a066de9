//! Heuristic deadlock detection.
//!
//! A hypothesis is scored from evidence gathered elsewhere: the state of the
//! process, what earlier responsiveness probes recorded, how often the process
//! is scheduled, and which other blocked processes hold the same resources.
//! Confidence is counted in hundredths, so every rule is exact.

use crate::platform::{text_of, DeadlockType};
use crate::text::{chars_of, contains, contains_pattern};
use vstd::prelude::*;

verus! {

/// Added when the process is in uninterruptible wait.
pub const CONFIDENCE_UNINTERRUPTIBLE: u32 = 40;

/// Added when the probe history marks the process unkillable.
pub const CONFIDENCE_MARKED_UNKILLABLE: u32 = 30;

/// Added on top when it has been unresponsive for more than 30 seconds.
pub const CONFIDENCE_UNRESPONSIVE_30S: u32 = 10;

/// Added on top instead when it has been unresponsive for more than 60 seconds.
pub const CONFIDENCE_UNRESPONSIVE_60S: u32 = 20;

/// Added when the process is hardly ever scheduled.
pub const CONFIDENCE_IDLE_SCHEDULING: u32 = 10;

/// Added when another blocked process shares a held resource.
pub const CONFIDENCE_SHARED_RESOURCE: u32 = 20;

/// The scheduling rule counts only above this running confidence.
pub const SCHEDULING_FLOOR: u32 = 30;

/// The search for sharing processes is made only above this running confidence.
pub const SCAN_FLOOR: u32 = 40;

/// A hypothesis is reported only above this confidence.
pub const EMIT_THRESHOLD: u32 = 60;

/// The greatest confidence that is ever reported.
pub const FULL_CONFIDENCE: u32 = 100;

/// A context-switch rate below this many thousandths per second is "near zero".
pub const IDLE_RATE_MILLI: u64 = 100;

/// What is known about a process when a deadlock hypothesis is scored.
#[derive(Debug, Clone)]
pub struct DeadlockEvidence {
    pub pid: u32,
    /// State letter from the process listing; `D` is uninterruptible wait.
    pub state_char: char,
    /// What the process waits on, where the listing names it.
    pub wait_channel: Option<String>,
    /// Whether the probe history marks the process unkillable.
    pub marked_unkillable: bool,
    /// Seconds since that history entry was last refreshed.
    pub unresponsive_secs: u64,
    /// Context switches per second, in thousandths, where measured.
    pub switch_rate_milli: Option<u64>,
    /// Other blocked processes found to hold a resource of this one, where
    /// the search was made.
    pub sharing_processes: Option<Vec<u32>>,
}

/// A confidence-scored deadlock hypothesis.
#[derive(Debug, Clone)]
pub struct DeadlockInfo {
    pub involved_processes: Vec<u32>,
    pub deadlock_type: DeadlockType,
    pub resource_info: String,
    /// Confidence in hundredths, at most 100.
    pub detection_confidence: u32,
}

/// Confidence from the process state and the probe history.
pub open spec fn base_score(uninterruptible: bool, marked: bool, secs: nat) -> nat {
    let state: nat = if uninterruptible {
        40
    } else {
        0
    };
    let history: nat = if !marked {
        0
    } else if secs > 60 {
        50
    } else if secs > 30 {
        40
    } else {
        30
    };
    state + history
}

/// Confidence once the scheduling rule has been applied to `running`.
pub open spec fn with_scheduling(running: nat, idle: bool) -> nat {
    if idle && running > 30 {
        running + 10
    } else {
        running
    }
}

/// Confidence once the shared-resource rule has been applied to `running`.
pub open spec fn with_sharing(running: nat, shared: bool) -> nat {
    if shared && running > 40 {
        running + 20
    } else {
        running
    }
}

/// The confidence that all rules together give.
pub open spec fn total_score(
    uninterruptible: bool,
    marked: bool,
    secs: nat,
    idle: bool,
    shared: bool,
) -> nat {
    with_sharing(with_scheduling(base_score(uninterruptible, marked, secs), idle), shared)
}

/// The confidence as reported: never above 100.
pub open spec fn reported_score(total: nat) -> nat {
    if total > 100 {
        100
    } else {
        total
    }
}

/// Whether a hypothesis with this confidence is reported.
pub open spec fn is_emitted(total: nat) -> bool {
    total > 60
}

/// The wait channel names something of the network.
pub open spec fn names_network(w: Seq<char>) -> bool {
    contains(w, "net"@) || contains(w, "socket"@) || contains(w, "tcp"@) || contains(w, "udp"@)
}

/// The wait channel names block I/O.
pub open spec fn names_block_io(w: Seq<char>) -> bool {
    contains(w, "bio"@) || contains(w, "disk"@) || contains(w, "vfs"@) || contains(w, "read"@)
        || contains(w, "write"@) || contains(w, "buf"@)
}

/// The class that a wait-channel description stands for.
pub open spec fn channel_class(w: Seq<char>) -> DeadlockType {
    if names_network(w) {
        DeadlockType::NetworkDeadlock
    } else if names_block_io(w) {
        DeadlockType::IoDeadlock
    } else {
        DeadlockType::ResourceDeadlock
    }
}

/// The state letter stands for uninterruptible wait.
pub open spec fn is_uninterruptible(state_char: char) -> bool {
    state_char == 'D'
}

/// The measured switch rate is near zero.
pub open spec fn is_idle(switch_rate_milli: Option<u64>) -> bool {
    switch_rate_milli matches Some(rate) && rate < 100
}

/// `pids` with `pid` added, unless it is there already.
pub open spec fn with_pid(pids: Seq<u32>, pid: u32) -> Seq<u32> {
    if pids.contains(pid) {
        pids
    } else {
        pids.push(pid)
    }
}

/// `base` with the first `n` of `others` added, each once.
pub open spec fn joined(base: Seq<u32>, others: Seq<u32>, n: int) -> Seq<u32>
    decreases n,
{
    if n <= 0 || n > others.len() {
        base
    } else {
        with_pid(joined(base, others, n - 1), others[n - 1])
    }
}

/// Process `pid` and the processes that the search found sharing its
/// resources, each once, `pid` first.
pub open spec fn circle_of(pid: u32, sharing_processes: Option<Vec<u32>>) -> Seq<u32> {
    match sharing_processes {
        Some(others) => joined(seq![pid], others@, others@.len() as int),
        None => seq![pid],
    }
}

/// The search found at least one other process that shares a resource.
pub open spec fn is_shared(pid: u32, sharing_processes: Option<Vec<u32>>) -> bool {
    circle_of(pid, sharing_processes).len() > 1
}

/// The processes that a hypothesis about `pid` names: the process itself,
/// then the sharing ones where they counted, that is where the confidence
/// before the search exceeded 0.4.
pub open spec fn involved_of(pid: u32, before_scan: nat, sharing_processes: Option<Vec<u32>>) -> Seq<
    u32,
> {
    if before_scan > 40 {
        circle_of(pid, sharing_processes)
    } else {
        seq![pid]
    }
}

/// No process occurs twice.
pub open spec fn each_once(pids: Seq<u32>) -> bool {
    forall|i: int, j: int| 0 <= i < j < pids.len() ==> pids[i] != pids[j]
}

/// Adding processes one by one, each once, keeps what was there in front
/// and lets no process occur twice.
pub proof fn lemma_joined(base: Seq<u32>, others: Seq<u32>, n: int)
    requires
        each_once(base),
        0 <= n <= others.len(),
    ensures
        each_once(joined(base, others, n)),
        joined(base, others, n).len() >= base.len(),
        joined(base, others, n).subrange(0, base.len() as int) == base,
        forall|k: int| 0 <= k < n ==> joined(base, others, n).contains(#[trigger] others[k]),
    decreases n,
{
    if n > 0 {
        lemma_joined(base, others, n - 1);
        let before = joined(base, others, n - 1);
        let after = joined(base, others, n);
        if !before.contains(others[n - 1]) {
            assert(after[before.len() as int] == others[n - 1]);
            assert forall|i: int, j: int| 0 <= i < j < after.len() implies after[i] != after[j] by {
                if j == before.len() {
                    assert(before[i] == after[i]);
                } else {
                    assert(before[i] == after[i] && before[j] == after[j]);
                }
            }
        }
        assert(after.subrange(0, base.len() as int) =~= base);
        assert forall|k: int| 0 <= k < n implies after.contains(#[trigger] others[k]) by {
            if k < n - 1 {
                let at = choose|at: int| 0 <= at < before.len() && before[at] == others[k];
                assert(after[at] == others[k]);
            }
        }
    } else {
        assert(base.subrange(0, base.len() as int) =~= base);
    }
}

/// A hypothesis names its process first and no process twice.
pub proof fn lemma_involved(pid: u32, before_scan: nat, sharing_processes: Option<Vec<u32>>)
    ensures
        involved_of(pid, before_scan, sharing_processes).len() >= 1,
        involved_of(pid, before_scan, sharing_processes)[0] == pid,
        each_once(involved_of(pid, before_scan, sharing_processes)),
{
    match sharing_processes {
        Some(others) => {
            lemma_joined(seq![pid], others@, others@.len() as int);
            let all = joined(seq![pid], others@, others@.len() as int);
            assert(all.subrange(0, 1)[0] == all[0]);
        },
        None => {},
    }
}

/// The description of what a process waits on: its wait channel, or
/// `unknown`.
pub open spec fn description_of(wait_channel: Option<Seq<char>>) -> Seq<char> {
    match wait_channel {
        Some(w) => w,
        None => "unknown"@,
    }
}

/// The class of a hypothesis: that of the wait channel, or a plain
/// resource where none is known.
pub open spec fn class_of(wait_channel: Option<Seq<char>>) -> DeadlockType {
    match wait_channel {
        Some(w) => channel_class(w),
        None => DeadlockType::ResourceDeadlock,
    }
}

impl DeadlockEvidence {
    /// Confidence before the search for sharing processes.
    pub open spec fn score_before_scan(&self) -> nat {
        with_scheduling(
            base_score(
                is_uninterruptible(self.state_char),
                self.marked_unkillable,
                self.unresponsive_secs as nat,
            ),
            is_idle(self.switch_rate_milli),
        )
    }

    /// Confidence from all the evidence.
    pub open spec fn score(&self) -> nat {
        with_sharing(self.score_before_scan(), is_shared(self.pid, self.sharing_processes))
    }

    /// The processes a hypothesis names.
    pub open spec fn involved(&self) -> Seq<u32> {
        involved_of(self.pid, self.score_before_scan(), self.sharing_processes)
    }

    /// The description of what the process waits on.
    pub open spec fn resource_description(&self) -> Seq<char> {
        description_of(text_of(self.wait_channel))
    }

    /// The class of the hypothesis.
    pub open spec fn class(&self) -> DeadlockType {
        class_of(text_of(self.wait_channel))
    }
}

/// Classifies a wait-channel description: network names first, then block
/// I/O names, else a plain resource.
pub fn classify_deadlock_type(wchan: &str) -> (class: DeadlockType)
    ensures
        class == channel_class(wchan@),
{
    let w = chars_of(wchan);
    if contains_pattern(&w, &chars_of("net")) || contains_pattern(&w, &chars_of("socket"))
        || contains_pattern(&w, &chars_of("tcp")) || contains_pattern(&w, &chars_of("udp")) {
        DeadlockType::NetworkDeadlock
    } else if contains_pattern(&w, &chars_of("bio")) || contains_pattern(&w, &chars_of("disk"))
        || contains_pattern(&w, &chars_of("vfs")) || contains_pattern(&w, &chars_of("read"))
        || contains_pattern(&w, &chars_of("write")) || contains_pattern(&w, &chars_of("buf")) {
        DeadlockType::IoDeadlock
    } else {
        DeadlockType::ResourceDeadlock
    }
}

/// The confidence that the state and the probe history give, before the
/// scheduling rule and the search for sharing processes.
pub fn confidence_before_scan(evidence: &DeadlockEvidence) -> (score: u32)
    ensures
        score == evidence.score_before_scan(),
        score <= 100,
{
    let mut score: u32 = 0;
    if evidence.state_char == 'D' {
        score = score + CONFIDENCE_UNINTERRUPTIBLE;
    }
    if evidence.marked_unkillable {
        score = score + CONFIDENCE_MARKED_UNKILLABLE;
        if evidence.unresponsive_secs > 60 {
            score = score + CONFIDENCE_UNRESPONSIVE_60S;
        } else if evidence.unresponsive_secs > 30 {
            score = score + CONFIDENCE_UNRESPONSIVE_30S;
        }
    }
    let idle = match evidence.switch_rate_milli {
        Some(rate) => rate < IDLE_RATE_MILLI,
        None => false,
    };
    if idle && score > SCHEDULING_FLOOR {
        score = score + CONFIDENCE_IDLE_SCHEDULING;
    }
    score
}

/// Whether the search for sharing processes is worth its cost: only once the
/// confidence so far exceeds 40.
pub fn needs_resource_scan(evidence: &DeadlockEvidence) -> (wanted: bool)
    ensures
        wanted == (evidence.score_before_scan() > 40),
{
    confidence_before_scan(evidence) > SCAN_FLOOR
}

/// Whether a hypothesis of this confidence (in hundredths) is reported:
/// strictly above 60.
pub fn exceeds_emit_threshold(confidence: u32) -> (emitted: bool)
    ensures
        emitted == is_emitted(confidence as nat),
{
    confidence > EMIT_THRESHOLD
}

/// Whether `pid` is among `pids`.
fn holds(pids: &Vec<u32>, pid: u32) -> (r: bool)
    ensures
        r == pids@.contains(pid),
{
    let mut i: usize = 0;
    while i < pids.len()
        invariant
            i <= pids@.len(),
            forall|j: int| 0 <= j < i ==> pids@[j] != pid,
        decreases pids@.len() - i,
    {
        if pids[i] == pid {
            return true;
        }
        i = i + 1;
    }
    false
}

/// Scores the evidence and reports a hypothesis where the confidence
/// strictly exceeds 60. The hypothesis names the process itself first and
/// then, where they counted, the processes that share its resources, each
/// once.
pub fn detect_deadlock(evidence: &DeadlockEvidence) -> (found: Option<DeadlockInfo>)
    ensures
        found is Some <==> is_emitted(evidence.score()),
        found matches Some(info) ==> {
            &&& info.detection_confidence == reported_score(evidence.score())
            &&& info.deadlock_type == evidence.class()
            &&& info.resource_info@ == evidence.resource_description()
            &&& info.involved_processes@ == evidence.involved()
        },
{
    let mut score = confidence_before_scan(evidence);
    let mut involved: Vec<u32> = Vec::new();
    involved.push(evidence.pid);
    if score > SCAN_FLOOR {
        match &evidence.sharing_processes {
            Some(others) => {
                let mut i: usize = 0;
                while i < others.len()
                    invariant
                        i <= others@.len(),
                        involved@ == joined(seq![evidence.pid], others@, i as int),
                    decreases others@.len() - i,
                {
                    if !holds(&involved, others[i]) {
                        involved.push(others[i]);
                    }
                    i = i + 1;
                }
                if involved.len() > 1 {
                    score = score + CONFIDENCE_SHARED_RESOURCE;
                }
            },
            None => {},
        }
    }
    if !exceeds_emit_threshold(score) {
        return None;
    }
    let (class, description) = match &evidence.wait_channel {
        Some(w) => (classify_deadlock_type(w.as_str()), w.clone()),
        None => (DeadlockType::ResourceDeadlock, "unknown".to_owned()),
    };
    let reported: u32 = if score > FULL_CONFIDENCE {
        FULL_CONFIDENCE
    } else {
        score
    };
    Some(
        DeadlockInfo {
            involved_processes: involved,
            deadlock_type: class,
            resource_info: description,
            detection_confidence: reported,
        },
    )
}

/// Confidence never falls when evidence is added to a fixed process state:
/// a history mark, a longer unresponsive time, an idle scheduling rate or a
/// sharing process can only raise it.
pub proof fn lemma_confidence_monotonic(
    uninterruptible: bool,
    marked_a: bool,
    secs_a: nat,
    idle_a: bool,
    shared_a: bool,
    marked_b: bool,
    secs_b: nat,
    idle_b: bool,
    shared_b: bool,
)
    requires
        marked_a ==> marked_b,
        secs_a <= secs_b,
        idle_a ==> idle_b,
        shared_a ==> shared_b,
    ensures
        total_score(uninterruptible, marked_a, secs_a, idle_a, shared_a) <= total_score(
            uninterruptible,
            marked_b,
            secs_b,
            idle_b,
            shared_b,
        ),
        reported_score(total_score(uninterruptible, marked_a, secs_a, idle_a, shared_a))
            <= reported_score(total_score(uninterruptible, marked_b, secs_b, idle_b, shared_b)),
{
}

/// The reported confidence never exceeds 100, and a hypothesis is reported
/// exactly when the confidence exceeds 60: at 60 nothing, at 61 a hypothesis.
pub proof fn lemma_confidence_bounds(
    uninterruptible: bool,
    marked: bool,
    secs: nat,
    idle: bool,
    shared: bool,
)
    ensures
        reported_score(total_score(uninterruptible, marked, secs, idle, shared)) <= 100,
        total_score(uninterruptible, marked, secs, idle, shared) <= 120,
        is_emitted(total_score(uninterruptible, marked, secs, idle, shared)) <==> reported_score(
            total_score(uninterruptible, marked, secs, idle, shared),
        ) > 60,
        !is_emitted(60),
        is_emitted(61),
{
}

} // verus!
