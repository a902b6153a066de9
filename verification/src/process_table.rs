//! The process table: what follows from the list of processes that the host
//! hands out.

use crate::platform::ProcessStatus;
use crate::text::{chars_of, find, find_first, lemma_find_from, slice_of, string_from_chars};
use vstd::prelude::*;

verus! {

/// One process of the table, as far as the table's structure goes.
#[derive(Debug, Clone, Copy, PartialEq, Eq, Structural)]
pub struct ProcessEntry {
    pub pid: u32,
    pub parent_pid: Option<u32>,
    pub status: ProcessStatus,
}

/// Whether a process responds: any process does that is not in
/// uninterruptible wait.
pub fn is_process_responsive(status: ProcessStatus) -> (responsive: bool)
    ensures
        responsive == (status != ProcessStatus::UninterruptibleSleep),
{
    match status {
        ProcessStatus::UninterruptibleSleep => false,
        _ => true,
    }
}

/// The first `n` processes of the table whose parent is `parent_pid`.
pub open spec fn children_in(table: Seq<ProcessEntry>, parent_pid: u32, n: int) -> Seq<u32>
    decreases n,
{
    if n <= 0 || n > table.len() {
        Seq::empty()
    } else if table[n - 1].parent_pid == Some(parent_pid) {
        children_in(table, parent_pid, n - 1).push(table[n - 1].pid)
    } else {
        children_in(table, parent_pid, n - 1)
    }
}

/// The processes whose parent is `parent_pid`, in the order of the table.
pub fn get_child_processes(table: &Vec<ProcessEntry>, parent_pid: u32) -> (children: Vec<u32>)
    ensures
        children@ == children_in(table@, parent_pid, table@.len() as int),
{
    let mut children: Vec<u32> = Vec::new();
    let mut i: usize = 0;
    while i < table.len()
        invariant
            i <= table@.len(),
            children@ == children_in(table@, parent_pid, i as int),
        decreases table@.len() - i,
    {
        match table[i].parent_pid {
            Some(parent) => {
                if parent == parent_pid {
                    children.push(table[i].pid);
                }
            },
            None => {},
        }
        i = i + 1;
    }
    children
}

/// The first `n` processes of the table that are in uninterruptible wait or
/// found unkillable.
pub open spec fn unkillable_in(table: Seq<ProcessEntry>, n: int) -> Seq<u32>
    decreases n,
{
    if n <= 0 || n > table.len() {
        Seq::empty()
    } else if table[n - 1].status == ProcessStatus::Unkillable || table[n - 1].status
        == ProcessStatus::UninterruptibleSleep {
        unkillable_in(table, n - 1).push(table[n - 1].pid)
    } else {
        unkillable_in(table, n - 1)
    }
}

/// The processes that are likely not to die when killed, in the order of
/// the table.
pub fn get_unkillable_processes(table: &Vec<ProcessEntry>) -> (pids: Vec<u32>)
    ensures
        pids@ == unkillable_in(table@, table@.len() as int),
{
    let mut pids: Vec<u32> = Vec::new();
    let mut i: usize = 0;
    while i < table.len()
        invariant
            i <= table@.len(),
            pids@ == unkillable_in(table@, i as int),
        decreases table@.len() - i,
    {
        if table[i].status.is_unkillable() {
            pids.push(table[i].pid);
        }
        i = i + 1;
    }
    pids
}

/// The variable that an entry of a process environment sets: what precedes
/// the first `=` is the name, what follows it the value; an entry without
/// `=` is a name without value.
pub open spec fn environment_entry(entry: Seq<char>) -> (Seq<char>, Seq<char>) {
    match find(entry, "="@) {
        Some(at) => (entry.subrange(0, at), entry.subrange(at + 1, entry.len() as int)),
        None => (entry, Seq::empty()),
    }
}

/// Splits an entry of a process environment into name and value.
pub fn parse_environment_entry(entry: &str) -> (variable: (String, String))
    ensures
        (variable.0@, variable.1@) == environment_entry(entry@),
{
    let text = chars_of(entry);
    let length = text.len();
    match find_first(&text, &chars_of("=")) {
        Some(at) => {
            proof {
                reveal_strlit("=");
                lemma_find_from(text@, "="@, 0);
            }
            (
                string_from_chars(&slice_of(&text, 0, at)),
                string_from_chars(&slice_of(&text, at + 1, length)),
            )
        },
        None => (string_from_chars(&text), String::new()),
    }
}

} // verus!
