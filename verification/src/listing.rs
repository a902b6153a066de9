//! Reading the host's process and open-file listings.
//!
//! The process listing has a header line and then one line for each process;
//! the open-file listing has a header line and then one line for each open
//! handle, with the handle's type in the fifth field and its name from the
//! ninth field on.

use crate::bandwidth::{add_capped, capped_sum};
use crate::numeric::{bounded_value, parse_i32, parse_u32, parse_u64, signed_value};
use crate::platform::{
    clone_text, text_of, IoWaitInfo, PlatformError, PlatformResult, ProcessState,
};
use crate::split::{fields, join, join_with, lines, rows, split_fields, split_lines};
use crate::text::{
    chars_of, contains, contains_pattern, find, find_first, has_prefix, lemma_find_from,
    same_chars, slice_of, starts_with, string_from_chars, trim, trimmed,
};
use vstd::prelude::*;

verus! {

/// What the process listing says about one process.
#[derive(Debug, Clone)]
pub struct ProcessSysctlInfo {
    pub pid: u32,
    pub state_char: char,
    pub wchan: Option<String>,
    pub nice: i32,
    pub cpu_time: String,
}

/// The views of a run of texts.
pub open spec fn texts(v: Seq<String>) -> Seq<Seq<char>> {
    v.map_values(|s: String| s@)
}

/// The fields of the listing's line for the process: those of its second
/// line, where it has one with at least six fields.
pub open spec fn process_row(output: Seq<char>) -> Option<Seq<Seq<char>>> {
    let all = lines(output);
    if all.len() >= 2 && fields(all[1]).len() >= 6 {
        Some(fields(all[1]))
    } else {
        None
    }
}

/// The state letter in a state field: its first character, `?` where it is
/// empty.
pub open spec fn state_letter(field: Seq<char>) -> char {
    if field.len() > 0 {
        field[0]
    } else {
        '?'
    }
}

/// The wait channel in a field: none where the field is a lone dash.
pub open spec fn wait_channel(field: Seq<char>) -> Option<Seq<char>> {
    if field == "-"@ {
        None
    } else {
        Some(field)
    }
}

/// The nice value in a field: 0 where the field holds no number.
pub open spec fn nice_value(field: Seq<char>) -> int {
    match signed_value(field, i32::MIN as int, i32::MAX as int) {
        Some(v) => v,
        None => 0,
    }
}

/// `info` is what the fields `row` say about process `pid`.
pub open spec fn describes(info: ProcessSysctlInfo, pid: u32, row: Seq<Seq<char>>) -> bool {
    &&& info.pid == pid
    &&& info.state_char == state_letter(row[2])
    &&& text_of(info.wchan) == wait_channel(row[3])
    &&& info.nice == nice_value(row[4])
    &&& info.cpu_time@ == row[5]
}

/// Reads the listing that the host printed for process `pid`, with the
/// columns pid, parent, state, wait channel, nice value and CPU time.
///
/// A listing without a second line means that the process is gone; a second
/// line with fewer than six fields is not a listing.
pub fn parse_process_listing(pid: u32, output: &str) -> (r: PlatformResult<ProcessSysctlInfo>)
    ensures
        r is Ok <==> process_row(output@) is Some,
        r matches Ok(info) ==> describes(info, pid, process_row(output@)->0),
        lines(output@).len() < 2 <==> (r matches Err(PlatformError::ProcessNotFound(p)) && p
            == pid),
        lines(output@).len() >= 2 && process_row(output@) is None <==> (r matches Err(
            PlatformError::SystemCallFailed(m),
        ) && m@ == "Invalid ps output"@),
{
    let all = split_lines(&chars_of(output));
    if all.len() < 2 {
        return Err(PlatformError::ProcessNotFound(pid));
    }
    let row = split_fields(&all[1]);
    if row.len() < 6 {
        return Err(PlatformError::SystemCallFailed("Invalid ps output".to_owned()));
    }
    let state_char = if row[2].len() > 0 {
        row[2][0]
    } else {
        '?'
    };
    let wchan = if same_chars(&row[3], &chars_of("-")) {
        None
    } else {
        Some(string_from_chars(&row[3]))
    };
    let nice = match parse_i32(&row[4]) {
        Some(v) => v,
        None => 0,
    };
    Ok(ProcessSysctlInfo { pid, state_char, wchan, nice, cpu_time: string_from_chars(&row[5]) })
}

/// The detailed state of a process as far as the listing gives it; what the
/// listing does not give is zero, and a single thread is assumed.
pub fn get_process_state(info: &ProcessSysctlInfo) -> (state: ProcessState)
    ensures
        state.state_char == info.state_char,
        text_of(state.wchan) == text_of(info.wchan),
        state.flags == 0,
        state.nice == info.nice,
        state.num_threads == 1,
        state.tgid == info.pid,
        state.blocked_signals == 0,
        state.pending_signals == 0,
{
    ProcessState {
        state_char: info.state_char,
        wchan: clone_text(&info.wchan),
        flags: 0,
        nice: info.nice,
        num_threads: 1,
        tgid: info.pid,
        blocked_signals: 0,
        pending_signals: 0,
    }
}

/// The wait channel names an I/O operation.
pub open spec fn names_io(w: Seq<char>) -> bool {
    contains(w, "bio"@) || contains(w, "disk"@) || contains(w, "read"@) || contains(w, "write"@)
}

/// The process waits for I/O: it is in uninterruptible wait, or its wait
/// channel names an I/O operation.
pub open spec fn waits_for_io(state_char: char, wchan: Option<Seq<char>>) -> bool {
    state_char == 'D' || (wchan matches Some(w) && names_io(w))
}

/// What a process is waiting for in I/O, as far as the listing tells.
pub fn analyze_io_wait(info: &ProcessSysctlInfo) -> (wait: IoWaitInfo)
    ensures
        wait.total_wait_time_ms == if waits_for_io(info.state_char, text_of(info.wchan)) {
            1000u64
        } else {
            0u64
        },
        text_of(wait.current_wait_operation) == text_of(info.wchan),
        wait.blocked_on_device is None,
        wait.io_operations_pending == if waits_for_io(info.state_char, text_of(info.wchan)) {
            1u32
        } else {
            0u32
        },
{
    let by_channel = match &info.wchan {
        Some(w) => {
            let w = chars_of(w.as_str());
            contains_pattern(&w, &chars_of("bio")) || contains_pattern(&w, &chars_of("disk"))
                || contains_pattern(&w, &chars_of("read")) || contains_pattern(
                &w,
                &chars_of("write"),
            )
        },
        None => false,
    };
    let is_io_wait = info.state_char == 'D' || by_channel;
    IoWaitInfo {
        total_wait_time_ms: if is_io_wait {
            1000
        } else {
            0
        },
        current_wait_operation: clone_text(&info.wchan),
        blocked_on_device: None,
        io_operations_pending: if is_io_wait {
            1
        } else {
            0
        },
    }
}

/// The process that a line of the listing of all processes names as being in
/// uninterruptible wait: its first field is the id, its second the state,
/// which holds a `D`.
pub open spec fn uninterruptible_row(line: Seq<char>) -> Option<u32> {
    let row = fields(line);
    if row.len() >= 2 && row[1].contains('D') {
        match bounded_value(row[0], 10, u32::MAX as nat) {
            Some(pid) => Some(pid as u32),
            None => None,
        }
    } else {
        None
    }
}

/// The processes in uninterruptible wait that the lines `1..n` of a listing
/// name; line 0 is the header.
pub open spec fn uninterruptible_in(all: Seq<Seq<char>>, n: int) -> Seq<u32>
    decreases n,
{
    if n <= 1 || n > all.len() {
        Seq::empty()
    } else {
        match uninterruptible_row(all[n - 1]) {
            Some(pid) => uninterruptible_in(all, n - 1).push(pid),
            None => uninterruptible_in(all, n - 1),
        }
    }
}

/// The processes in uninterruptible wait that a listing names.
pub open spec fn uninterruptible_pids(output: Seq<char>) -> Seq<u32> {
    uninterruptible_in(lines(output), lines(output).len() as int)
}

/// Whether `c` occurs in `s`.
fn has_char(s: &Vec<char>, c: char) -> (r: bool)
    ensures
        r == s@.contains(c),
{
    let mut i: usize = 0;
    while i < s.len()
        invariant
            i <= s@.len(),
            forall|j: int| 0 <= j < i ==> s@[j] != c,
        decreases s@.len() - i,
    {
        if s[i] == c {
            return true;
        }
        i = i + 1;
    }
    false
}

/// Reads the ids of the processes in uninterruptible wait from a listing of
/// all processes with the columns pid and state.
pub fn find_uninterruptible_processes(output: &str) -> (pids: Vec<u32>)
    ensures
        pids@ == uninterruptible_pids(output@),
{
    let all = split_lines(&chars_of(output));
    let mut pids: Vec<u32> = Vec::new();
    let mut i: usize = 1;
    while i < all.len()
        invariant
            1 <= i,
            i <= all@.len() || all@.len() == 0,
            rows(all@) == lines(output@),
            pids@ == uninterruptible_in(rows(all@), i as int),
        decreases all@.len() - i,
    {
        let row = split_fields(&all[i]);
        if row.len() >= 2 {
            match parse_u32(&row[0]) {
                Some(pid) => {
                    if has_char(&row[1], 'D') {
                        pids.push(pid);
                    }
                },
                None => {},
            }
        }
        i = i + 1;
    }
    pids
}

/// The handle type is one that processes can block each other on: a regular
/// file, a block or character device, or a pipe.
pub open spec fn is_lockable_type(kind: Seq<char>) -> bool {
    kind == "REG"@ || kind == "BLK"@ || kind == "CHR"@ || kind == "PIPE"@ || kind == "FIFO"@
}

/// The name of the handle that a line of the open-file listing describes:
/// its fields from the ninth on, joined by single spaces.
pub open spec fn handle_name(line: Seq<char>) -> Option<Seq<char>> {
    let row = fields(line);
    if row.len() >= 9 {
        Some(join(row.subrange(8, row.len() as int), " "@))
    } else {
        None
    }
}

/// The name of the handle on a line, where its type is a lockable one.
pub open spec fn held_resource(line: Seq<char>) -> Option<Seq<char>> {
    let row = fields(line);
    if row.len() >= 9 && is_lockable_type(row[4]) {
        handle_name(line)
    } else {
        None
    }
}

/// The lockable resources that the lines `1..n` of an open-file listing
/// name; line 0 is the header.
pub open spec fn held_in(all: Seq<Seq<char>>, n: int) -> Seq<Seq<char>>
    decreases n,
{
    if n <= 1 || n > all.len() {
        Seq::empty()
    } else {
        match held_resource(all[n - 1]) {
            Some(name) => held_in(all, n - 1).push(name),
            None => held_in(all, n - 1),
        }
    }
}

/// The lockable resources that an open-file listing names, in its order.
pub open spec fn held_resources(output: Seq<char>) -> Seq<Seq<char>> {
    held_in(lines(output), lines(output).len() as int)
}

/// One of the lines `1..n` of an open-file listing names a handle whose name
/// is among `targets`.
pub open spec fn shares_in(all: Seq<Seq<char>>, targets: Seq<Seq<char>>, n: int) -> bool {
    exists|i: int|
        1 <= i < n && i < all.len() && (#[trigger] handle_name(all[i])) is Some
            && targets.contains(handle_name(all[i])->0)
}

/// An open-file listing names a handle whose name is among `targets`.
pub open spec fn shares_resource(output: Seq<char>, targets: Seq<Seq<char>>) -> bool {
    shares_in(lines(output), targets, lines(output).len() as int)
}

/// The name of the handle on a line of fields, from the ninth field on.
pub fn name_of(row: &Vec<Vec<char>>) -> (name: Vec<char>)
    requires
        row@.len() >= 9,
    ensures
        name@ == join(rows(row@).subrange(8, row@.len() as int), " "@),
{
    let mut rest: Vec<Vec<char>> = Vec::new();
    let mut i: usize = 8;
    while i < row.len()
        invariant
            8 <= i <= row@.len(),
            rows(rest@) == rows(row@).subrange(8, i as int),
        decreases row@.len() - i,
    {
        let ghost before = rows(rest@);
        let field = crate::text::slice_of(&row[i], 0, row[i].len());
        assert(field@ =~= row@[i as int]@);
        rest.push(field);
        assert(rows(rest@) =~= before.push(field@));
        i = i + 1;
    }
    join_with(&rest, &chars_of(" "))
}

/// Reads the lockable resources that a process holds from its open-file
/// listing.
pub fn parse_held_resources(output: &str) -> (names: Vec<String>)
    ensures
        texts(names@) == held_resources(output@),
{
    let all = split_lines(&chars_of(output));
    let mut names: Vec<String> = Vec::new();
    let mut i: usize = 1;
    while i < all.len()
        invariant
            1 <= i,
            i <= all@.len() || all@.len() == 0,
            rows(all@) == lines(output@),
            texts(names@) == held_in(rows(all@), i as int),
        decreases all@.len() - i,
    {
        let row = split_fields(&all[i]);
        if row.len() >= 9 {
            let kind = &row[4];
            if same_chars(kind, &chars_of("REG")) || same_chars(kind, &chars_of("BLK"))
                || same_chars(kind, &chars_of("CHR")) || same_chars(kind, &chars_of("PIPE"))
                || same_chars(kind, &chars_of("FIFO")) {
                let name = string_from_chars(&name_of(&row));
                names.push(name);
            }
        }
        i = i + 1;
    }
    names
}

/// Whether `name` is among `targets`.
fn is_target(targets: &Vec<String>, name: &Vec<char>) -> (r: bool)
    ensures
        r == texts(targets@).contains(name@),
{
    let mut k: usize = 0;
    while k < targets.len()
        invariant
            k <= targets@.len(),
            forall|j: int| 0 <= j < k ==> texts(targets@)[j] != name@,
        decreases targets@.len() - k,
    {
        assert(texts(targets@)[k as int] == targets@[k as int]@);
        if same_chars(&chars_of(targets[k].as_str()), name) {
            return true;
        }
        k = k + 1;
    }
    false
}

/// Whether the process with this open-file listing holds one of the
/// resources `targets`.
pub fn shares_resources_with(output: &str, targets: &Vec<String>) -> (shares: bool)
    ensures
        shares == shares_resource(output@, texts(targets@)),
{
    let all = split_lines(&chars_of(output));
    let mut i: usize = 1;
    while i < all.len()
        invariant
            1 <= i,
            i <= all@.len() || all@.len() == 0,
            rows(all@) == lines(output@),
            !shares_in(rows(all@), texts(targets@), i as int),
        decreases all@.len() - i,
    {
        let row = split_fields(&all[i]);
        if row.len() >= 9 {
            let name = name_of(&row);
            if is_target(targets, &name) {
                assert(handle_name(rows(all@)[i as int]) is Some);
                return true;
            }
        }
        i = i + 1;
    }
    false
}

/// The first `n` of `pids` without `pid`.
pub open spec fn others_in(pids: Seq<u32>, pid: u32, n: int) -> Seq<u32>
    decreases n,
{
    if n <= 0 || n > pids.len() {
        Seq::empty()
    } else if pids[n - 1] != pid {
        others_in(pids, pid, n - 1).push(pids[n - 1])
    } else {
        others_in(pids, pid, n - 1)
    }
}

/// The processes whose open files are to be compared with those of `pid`:
/// the other processes in uninterruptible wait, provided there is more than
/// one such process at all.
pub open spec fn scan_candidates(pid: u32, uninterruptible: Seq<u32>) -> Seq<u32> {
    if uninterruptible.len() <= 1 {
        Seq::empty()
    } else {
        others_in(uninterruptible, pid, uninterruptible.len() as int)
    }
}

/// Picks the processes whose open files are to be compared with those of
/// `pid`.
pub fn plan_resource_scan(pid: u32, uninterruptible: &Vec<u32>) -> (others: Vec<u32>)
    ensures
        others@ == scan_candidates(pid, uninterruptible@),
{
    let mut others: Vec<u32> = Vec::new();
    if uninterruptible.len() <= 1 {
        return others;
    }
    let mut i: usize = 0;
    while i < uninterruptible.len()
        invariant
            i <= uninterruptible@.len(),
            others@ == others_in(uninterruptible@, pid, i as int),
        decreases uninterruptible@.len() - i,
    {
        if uninterruptible[i] != pid {
            others.push(uninterruptible[i]);
        }
        i = i + 1;
    }
    others
}

/// One other process and its open-file listing, where the host gave one.
#[derive(Debug, Clone)]
pub struct ScannedProcess {
    pub pid: u32,
    pub listing: Option<String>,
}

/// The first `n` of the scanned processes that hold one of `targets`.
pub open spec fn sharing_in(scanned: Seq<ScannedProcess>, targets: Seq<Seq<char>>, n: int) -> Seq<
    u32,
>
    decreases n,
{
    if n <= 0 || n > scanned.len() {
        Seq::empty()
    } else if scanned[n - 1].listing matches Some(text) && shares_resource(text@, targets) {
        sharing_in(scanned, targets, n - 1).push(scanned[n - 1].pid)
    } else {
        sharing_in(scanned, targets, n - 1)
    }
}

/// Finds the processes that share a lockable resource with the target.
///
/// `target_listing` is the open-file listing of the target; `scanned` holds
/// the other processes in uninterruptible wait with theirs. A process counts
/// when its listing names a handle whose name is among the target's lockable
/// resources. A process without listing does not count.
pub fn find_related_waiting_processes(target_listing: &str, scanned: &Vec<ScannedProcess>) -> (related:
    Vec<u32>)
    ensures
        related@ == sharing_in(
            scanned@,
            held_resources(target_listing@),
            scanned@.len() as int,
        ),
{
    let targets = parse_held_resources(target_listing);
    let mut related: Vec<u32> = Vec::new();
    let mut i: usize = 0;
    while i < scanned.len()
        invariant
            i <= scanned@.len(),
            texts(targets@) == held_resources(target_listing@),
            related@ == sharing_in(scanned@, texts(targets@), i as int),
        decreases scanned@.len() - i,
    {
        match &scanned[i].listing {
            Some(text) => {
                if shares_resources_with(text.as_str(), &targets) {
                    related.push(scanned[i].pid);
                }
            },
            None => {},
        }
        i = i + 1;
    }
    related
}

/// The counter that a line of the host's status text gives: the line
/// starts with the name of the voluntary or of the involuntary context
/// switches, and what follows its first colon is a decimal number.
pub open spec fn switch_counter(line: Seq<char>) -> Option<u64> {
    if starts_with(line, "voluntary_ctxt_switches:"@) || starts_with(
        line,
        "nonvoluntary_ctxt_switches:"@,
    ) {
        match find(line, ":"@) {
            Some(at) => match bounded_value(
                trim(line.subrange(at + 1, line.len() as int)),
                10,
                u64::MAX as nat,
            ) {
                Some(count) => Some(count as u64),
                None => None,
            },
            None => None,
        }
    } else {
        None
    }
}

/// The sum of the counters that the first `n` lines give, never above
/// `u64::MAX`; nothing where none of them gives a counter.
pub open spec fn switches_in(all: Seq<Seq<char>>, n: int) -> Option<u64>
    decreases n,
{
    if n <= 0 || n > all.len() {
        None
    } else {
        match switch_counter(all[n - 1]) {
            None => switches_in(all, n - 1),
            Some(count) => match switches_in(all, n - 1) {
                None => Some(count),
                Some(sum) => Some(capped_sum(sum, count)),
            },
        }
    }
}

/// The context switches of a process so far, as its status text counts
/// them: voluntary and involuntary ones together.
pub open spec fn context_switches_of(status: Seq<char>) -> Option<u64> {
    switches_in(lines(status), lines(status).len() as int)
}

/// Reads the counter that one line of the status text gives.
fn switch_counter_of(line: &Vec<char>) -> (count: Option<u64>)
    ensures
        count == switch_counter(line@),
{
    if !has_prefix(line, &chars_of("voluntary_ctxt_switches:")) && !has_prefix(
        line,
        &chars_of("nonvoluntary_ctxt_switches:"),
    ) {
        return None;
    }
    let length = line.len();
    match find_first(line, &chars_of(":")) {
        Some(at) => {
            proof {
                reveal_strlit(":");
                lemma_find_from(line@, ":"@, 0);
            }
            parse_u64(&trimmed(&slice_of(line, at + 1, length)))
        },
        None => None,
    }
}

/// Reads the number of context switches of a process from the status text
/// that the host keeps of it: the sum of the voluntary and the involuntary
/// ones, or nothing where the text counts neither.
pub fn parse_context_switches(status: &str) -> (total: Option<u64>)
    ensures
        total == context_switches_of(status@),
{
    let all = split_lines(&chars_of(status));
    let mut total: Option<u64> = None;
    let mut i: usize = 0;
    while i < all.len()
        invariant
            i <= all@.len(),
            rows(all@) == lines(status@),
            total == switches_in(rows(all@), i as int),
        decreases all@.len() - i,
    {
        match switch_counter_of(&all[i]) {
            Some(count) => {
                total = match total {
                    Some(sum) => Some(add_capped(sum, count)),
                    None => Some(count),
                };
            },
            None => {},
        }
        i = i + 1;
    }
    total
}

} // verus!
