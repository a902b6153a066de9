//! CPU limits for single processes: which priority and how many cores a
//! limit calls for, and the book of the limits that are in force.
//!
//! A limit is a share of one CPU in thousandths of a percent. The calls
//! that put a limit in force are made by the caller; what they are to be,
//! and what is noted afterwards, is decided here.

use crate::gauges::{LimitError, LimitPreset, LimitType};
use crate::kernel::{describe, numbered, EPERM, ESRCH};
use vstd::prelude::*;

verus! {

/// The smallest limit that can be set: 1%.
pub const LIMIT_MIN: u64 = 1000;

/// The greatest limit that can be set: 100%.
pub const LIMIT_MAX: u64 = 100000;

/// A CPU limit that is in force.
#[derive(Debug, Clone, Copy, PartialEq, Eq, Structural)]
pub struct CpuLimit {
    pub pid: u32,
    /// The share of one CPU that the process may use, in thousandths of a
    /// percent.
    pub max_cpu: u64,
    pub nice_value: i32,
    /// The priority that the process had before.
    pub original_nice: Option<i32>,
    pub affinity_mask: Option<u64>,
    pub limit_type: LimitType,
}

/// The priority that a limit calls for: the tighter the limit, the lower
/// the priority.
pub open spec fn nice_for(max_cpu: u64) -> i32 {
    if max_cpu >= 75000 {
        0
    } else if max_cpu >= 50000 {
        5
    } else if max_cpu >= 25000 {
        10
    } else if max_cpu >= 10000 {
        15
    } else {
        19
    }
}

/// The number of cores that a limit allows on a machine with `total_cores`:
/// the limit's share of them, rounded up, but one at least and never more
/// than there are.
pub open spec fn cores_for(max_cpu: u64, total_cores: usize) -> int {
    let share = (max_cpu * total_cores + 99999) / 100000;
    let at_least_one = if share < 1 {
        1
    } else {
        share
    };
    if at_least_one > total_cores {
        total_cores as int
    } else {
        at_least_one
    }
}

/// The kind of a limit, by the means that took effect beside the priority.
pub open spec fn kind_of(tool_applied: bool, affinity_applied: bool) -> LimitType {
    if affinity_applied {
        if tool_applied {
            LimitType::Combined
        } else {
            LimitType::Affinity
        }
    } else if tool_applied {
        LimitType::CpuLimit
    } else {
        LimitType::Nice
    }
}

/// The limit is one that can be set: from 1% to 100%.
pub open spec fn is_valid_limit(max_cpu: u64) -> bool {
    1000 <= max_cpu <= 100000
}

/// The priority that a limit calls for.
pub fn calculate_nice_from_limit(max_cpu: u64) -> (nice: i32)
    ensures
        nice == nice_for(max_cpu),
        0 <= nice <= 19,
{
    if max_cpu >= 75000 {
        0
    } else if max_cpu >= 50000 {
        5
    } else if max_cpu >= 25000 {
        10
    } else if max_cpu >= 10000 {
        15
    } else {
        19
    }
}

/// The number of cores that a limit allows.
pub fn calculate_allowed_cores(max_cpu: u64, total_cores: usize) -> (cores: usize)
    ensures
        cores == cores_for(max_cpu, total_cores),
        cores <= total_cores,
        total_cores >= 1 ==> cores >= 1,
{
    assert(max_cpu * total_cores <= 0xffff_ffff_ffff_ffff * 0xffff_ffff_ffff_ffff) by (nonlinear_arith)
        requires
            0 <= max_cpu <= 0xffff_ffff_ffff_ffff,
            0 <= total_cores <= 0xffff_ffff_ffff_ffff,
    ;
    let share: u128 = ((max_cpu as u128) * (total_cores as u128) + 99999) / 100000;
    let at_least_one: u128 = if share < 1 {
        1
    } else {
        share
    };
    if at_least_one > total_cores as u128 {
        total_cores
    } else {
        at_least_one as usize
    }
}

/// Checks that a limit is one that can be set.
pub fn validate_limit(max_cpu: u64) -> (r: Result<(), LimitError>)
    ensures
        r is Ok <==> is_valid_limit(max_cpu),
        r matches Err(e) ==> e is InvalidLimit,
{
    if max_cpu < LIMIT_MIN || max_cpu > LIMIT_MAX {
        Err(LimitError::InvalidLimit)
    } else {
        Ok(())
    }
}

/// The error that a failed priority call is reported with.
pub fn priority_error(errno: i32) -> (e: LimitError)
    ensures
        errno == EPERM ==> e is PermissionDenied,
        errno == ESRCH ==> e is ProcessNotFound,
        errno != EPERM && errno != ESRCH ==> (e matches LimitError::SystemError(m) && m@
            == numbered("errno: "@, errno as int, ""@)),
{
    if errno == EPERM {
        LimitError::PermissionDenied
    } else if errno == ESRCH {
        LimitError::ProcessNotFound
    } else {
        LimitError::SystemError(describe("errno: ", errno as i64, ""))
    }
}

/// The kind of a limit, by the means that took effect beside the priority.
pub fn limit_type_for(tool_applied: bool, affinity_applied: bool) -> (kind: LimitType)
    ensures
        kind == kind_of(tool_applied, affinity_applied),
{
    if affinity_applied {
        if tool_applied {
            LimitType::Combined
        } else {
            LimitType::Affinity
        }
    } else if tool_applied {
        LimitType::CpuLimit
    } else {
        LimitType::Nice
    }
}

/// What is to be undone when a limit is removed.
#[derive(Debug, Clone, Copy, PartialEq, Eq, Structural)]
pub struct Removal {
    /// The priority to set again.
    pub restore_nice: Option<i32>,
    /// Whether the limiting tool is to be stopped.
    pub stop_tool: bool,
}

/// The first index below `n` at which `limits` holds a limit of `pid`, or
/// `-1`.
pub open spec fn limit_index(limits: Seq<CpuLimit>, pid: u32, n: int) -> int
    decreases n,
{
    if n <= 0 || n > limits.len() {
        -1
    } else if limit_index(limits, pid, n - 1) >= 0 {
        limit_index(limits, pid, n - 1)
    } else if limits[n - 1].pid == pid {
        n - 1
    } else {
        -1
    }
}

/// The limits after `limit` has been noted: it takes the place of an
/// earlier limit of its process, or else comes last.
pub open spec fn with_limit(limits: Seq<CpuLimit>, limit: CpuLimit) -> Seq<CpuLimit> {
    let i = limit_index(limits, limit.pid, limits.len() as int);
    if i >= 0 {
        limits.update(i, limit)
    } else {
        limits.push(limit)
    }
}

/// No process has two limits.
pub open spec fn one_limit_each(limits: Seq<CpuLimit>) -> bool {
    forall|i: int, j: int| 0 <= i < j < limits.len() ==> limits[i].pid != limits[j].pid
}

/// What `limit_index` returns is the first limit of that process.
proof fn lemma_limit_index(limits: Seq<CpuLimit>, pid: u32, n: int)
    requires
        0 <= n <= limits.len(),
    ensures
        -1 <= limit_index(limits, pid, n) < n,
        limit_index(limits, pid, n) >= 0 ==> limits[limit_index(limits, pid, n)].pid == pid,
        forall|j: int|
            0 <= j < n && (limit_index(limits, pid, n) < 0 || j < limit_index(limits, pid, n))
                ==> limits[j].pid != pid,
    decreases n,
{
    if n > 0 {
        lemma_limit_index(limits, pid, n - 1);
    }
}

/// A limit of `pid` at `i`, with none before it, is what every longer
/// search finds.
proof fn lemma_limit_found(limits: Seq<CpuLimit>, pid: u32, i: int, n: int)
    requires
        0 <= i < n <= limits.len(),
        limit_index(limits, pid, i) < 0,
        limits[i].pid == pid,
    ensures
        limit_index(limits, pid, n) == i,
    decreases n,
{
    if n > i + 1 {
        lemma_limit_found(limits, pid, i, n - 1);
    }
}

/// Keeps the CPU limits that are in force.
#[derive(Debug)]
pub struct ProcessCpuLimiter {
    limits: Vec<CpuLimit>,
    cpulimit_available: Option<bool>,
}

impl ProcessCpuLimiter {
    /// The limits that are in force, in the order in which their processes
    /// were first limited.
    pub closed spec fn limits(&self) -> Seq<CpuLimit> {
        self.limits@
    }

    /// What is known about the limiting tool: whether the host has it, once
    /// that has been found out.
    pub closed spec fn tool_known(&self) -> Option<bool> {
        self.cpulimit_available
    }

    /// No process has two limits.
    pub open spec fn well_formed(&self) -> bool {
        one_limit_each(self.limits())
    }

    /// A limiter without limits that knows nothing of the tool yet.
    pub fn new() -> (limiter: Self)
        ensures
            limiter.well_formed(),
            limiter.limits() == Seq::<CpuLimit>::empty(),
            limiter.tool_known() is None,
    {
        ProcessCpuLimiter { limits: Vec::new(), cpulimit_available: None }
    }

    /// Whether the host has the limiting tool, where that is known already.
    pub fn known_tool_availability(&self) -> (known: Option<bool>)
        ensures
            known == self.tool_known(),
    {
        self.cpulimit_available
    }

    /// Notes whether the host has the limiting tool.
    pub fn note_tool_availability(&mut self, available: bool)
        ensures
            final(self).limits() == old(self).limits(),
            final(self).tool_known() == Some(available),
    {
        self.cpulimit_available = Some(available);
    }

    /// The index of the limit of process `pid`.
    fn find(&self, pid: u32) -> (found: Option<usize>)
        ensures
            found is Some <==> limit_index(self.limits(), pid, self.limits().len() as int) >= 0,
            found matches Some(i) ==> i < self.limits().len() && i == limit_index(
                self.limits(),
                pid,
                self.limits().len() as int,
            ),
    {
        let mut i: usize = 0;
        while i < self.limits.len()
            invariant
                i <= self.limits@.len(),
                limit_index(self.limits@, pid, i as int) < 0,
            decreases self.limits@.len() - i,
        {
            if self.limits[i].pid == pid {
                proof {
                    lemma_limit_found(self.limits@, pid, i as int, self.limits@.len() as int);
                }
                return Some(i);
            }
            i = i + 1;
        }
        None
    }

    /// Notes the limit that has been put in force for process `pid`: the
    /// share `max_cpu`, the priority that was set and the one that the
    /// process had before, and which other means took effect.
    pub fn record_limit(
        &mut self,
        pid: u32,
        max_cpu: u64,
        original_nice: i32,
        tool_applied: bool,
        affinity_applied: bool,
    ) -> (limit: CpuLimit)
        requires
            old(self).well_formed(),
        ensures
            final(self).well_formed(),
            final(self).tool_known() == old(self).tool_known(),
            limit == (CpuLimit {
                pid,
                max_cpu,
                nice_value: nice_for(max_cpu),
                original_nice: Some(original_nice),
                affinity_mask: None,
                limit_type: kind_of(tool_applied, affinity_applied),
            }),
            final(self).limits() == with_limit(old(self).limits(), limit),
    {
        let limit = CpuLimit {
            pid,
            max_cpu,
            nice_value: calculate_nice_from_limit(max_cpu),
            original_nice: Some(original_nice),
            affinity_mask: None,
            limit_type: limit_type_for(tool_applied, affinity_applied),
        };
        proof {
            lemma_limit_index(self.limits@, pid, self.limits@.len() as int);
        }
        match self.find(pid) {
            Some(i) => {
                self.limits.set(i, limit);
            },
            None => {
                self.limits.push(limit);
            },
        }
        limit
    }

    /// Takes the limit of process `pid` out of the book and tells what is
    /// to be undone: the priority to set again, and whether the limiting
    /// tool is to be stopped. A process without limit is not found.
    pub fn remove_limit(&mut self, pid: u32) -> (r: Result<Removal, LimitError>)
        requires
            old(self).well_formed(),
        ensures
            final(self).well_formed(),
            final(self).tool_known() == old(self).tool_known(),
            r is Ok <==> limit_index(old(self).limits(), pid, old(self).limits().len() as int)
                >= 0,
            r matches Err(e) ==> e is ProcessNotFound && final(self).limits() == old(
                self,
            ).limits(),
            r matches Ok(removal) ==> {
                let i = limit_index(old(self).limits(), pid, old(self).limits().len() as int);
                &&& final(self).limits() == old(self).limits().remove(i)
                &&& removal.restore_nice == old(self).limits()[i].original_nice
                &&& removal.stop_tool == (old(self).limits()[i].limit_type == LimitType::CpuLimit
                    || old(self).limits()[i].limit_type == LimitType::Combined)
                &&& limit_index(final(self).limits(), pid, final(self).limits().len() as int) < 0
            },
    {
        match self.find(pid) {
            Some(i) => {
                proof {
                    lemma_limit_index(self.limits@, pid, self.limits@.len() as int);
                }
                let limit = self.limits.remove(i);
                proof {
                    lemma_limit_index(self.limits@, pid, self.limits@.len() as int);
                    let k = limit_index(self.limits@, pid, self.limits@.len() as int);
                    if k >= 0 {
                        let src = if k < i {
                            k
                        } else {
                            k + 1
                        };
                        assert(old(self).limits@[src] == self.limits@[k]);
                    }
                }
                let stop_tool = match limit.limit_type {
                    LimitType::CpuLimit | LimitType::Combined => true,
                    _ => false,
                };
                Ok(Removal { restore_nice: limit.original_nice, stop_tool })
            },
            None => Err(LimitError::ProcessNotFound),
        }
    }

    /// Whether process `pid` has a limit.
    pub fn has_limit(&self, pid: u32) -> (has: bool)
        ensures
            has == (limit_index(self.limits(), pid, self.limits().len() as int) >= 0),
    {
        self.find(pid).is_some()
    }

    /// The limits that are in force.
    pub fn get_limits(&self) -> (all: Vec<CpuLimit>)
        ensures
            all@ == self.limits(),
    {
        let mut all: Vec<CpuLimit> = Vec::new();
        let mut i: usize = 0;
        while i < self.limits.len()
            invariant
                i <= self.limits@.len(),
                all@ == self.limits@.subrange(0, i as int),
            decreases self.limits@.len() - i,
        {
            all.push(self.limits[i]);
            i = i + 1;
        }
        assert(self.limits@.subrange(0, self.limits@.len() as int) =~= self.limits@);
        all
    }
}

/// The limit that a preset stands for, in thousandths of a percent.
pub fn limit_to_preset(preset: LimitPreset) -> (max_cpu: u64)
    ensures
        max_cpu == preset.allowed() * 1000,
        is_valid_limit(max_cpu),
{
    (preset.percent() as u64) * 1000
}

} // verus!
