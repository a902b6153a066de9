//! Stack sampling: reading what the host's sampling tools print, and
//! deciding what a capture returns when a tool fails.
//!
//! Parsing is tolerant. A line that is not understood is skipped; a frame
//! needs nothing but a hexadecimal address.

use crate::numeric::{bounded_value, parse_hex_u64};
use crate::platform::{frame_views, text_of, FrameView, StackFrame, StackTrace};
use crate::split::{lines, rows, split_lines};
use crate::text::{
    chars_of, contains, contains_pattern, find, find_at_or_after, find_first, find_from,
    find_last, has_prefix, lemma_find_from, lemma_rfind_upto,
    rfind, slice_of, starts_with, string_from_chars, trim, trimmed,
};
use vstd::prelude::*;

verus! {

/// The address, symbol and module that a line of the primary tool names.
///
/// The address stands in the last `[0x…]` of the line. What precedes it,
/// trimmed, is the symbol; where that ends in ` (in module)`, the module is
/// split off.
pub open spec fn sample_frame_parts(line: Seq<char>) -> Option<
    (u64, Option<Seq<char>>, Option<Seq<char>>),
> {
    match rfind(line, "[0x"@) {
        None => None,
        Some(open) => match find_from(line, "]"@, open) {
            None => None,
            Some(close) => match bounded_value(
                line.subrange(open + 3, close),
                16,
                u64::MAX as nat,
            ) {
                None => None,
                Some(address) => {
                    let head = trim(line.subrange(0, open));
                    match rfind(head, " (in "@) {
                        None => Some((address as u64, Some(head), None)),
                        Some(at) => match find_from(head, ")"@, at) {
                            None => Some((address as u64, None, None)),
                            Some(end) => Some(
                                (
                                    address as u64,
                                    Some(trim(head.subrange(0, at))),
                                    Some(head.subrange(at + 5, end)),
                                ),
                            ),
                        },
                    }
                },
            },
        },
    }
}

/// The frame that a line of the primary tool stands for, if any. Empty lines
/// and the `Process:` and `Date/Time:` headers stand for none.
pub open spec fn sample_frame(line: Seq<char>) -> Option<FrameView> {
    if line.len() == 0 || starts_with(line, "Process:"@) || starts_with(line, "Date/Time:"@) {
        None
    } else {
        match sample_frame_parts(line) {
            Some((address, symbol, module)) => Some(
                FrameView { address, symbol, module, file: None, line: None, offset: None },
            ),
            None => None,
        }
    }
}

/// A line of the primary tool's output opens the part that holds stacks.
pub open spec fn opens_sample_stack(line: Seq<char>) -> bool {
    contains(line, "Call graph:"@) || contains(line, "Heavy hitters:"@)
}

/// The frames that the primary tool's output holds from line `i` on, given
/// whether the stack part has been reached and the frames found so far.
///
/// Lines are trimmed. Frames are read only after a line that opens the stack
/// part, and reading ends at the first empty line after a frame.
pub open spec fn sample_frames_from(
    all: Seq<Seq<char>>,
    i: int,
    in_stack: bool,
    found: Seq<FrameView>,
) -> Seq<FrameView>
    decreases all.len() - i,
{
    if i < 0 || i >= all.len() {
        found
    } else {
        let line = trim(all[i]);
        if opens_sample_stack(line) {
            sample_frames_from(all, i + 1, true, found)
        } else if !in_stack {
            sample_frames_from(all, i + 1, false, found)
        } else {
            let next = match sample_frame(line) {
                Some(frame) => found.push(frame),
                None => found,
            };
            if line.len() == 0 && next.len() > 0 {
                next
            } else {
                sample_frames_from(all, i + 1, true, next)
            }
        }
    }
}

/// The frames that the primary tool's output holds.
pub open spec fn sample_frames(output: Seq<char>) -> Seq<FrameView> {
    sample_frames_from(lines(output), 0, false, Seq::empty())
}

/// Where the address of a line of the fallback tool ends: at the first
/// space at or after `at`, or at the end of the line.
pub open spec fn address_end(line: Seq<char>, at: int) -> int {
    match find_from(line, " "@, at) {
        Some(space) => space,
        None => line.len() as int,
    }
}

/// The frame that a line of the fallback tool stands for, if any. A frame
/// takes no more than a hexadecimal address: what follows the first `0x` up
/// to the next space or the end of the line. What follows that space is the
/// symbol; a line that ends with the address gives a frame without symbol.
pub open spec fn spindump_frame(line: Seq<char>) -> Option<FrameView> {
    match find(line, "0x"@) {
        None => None,
        Some(at) => {
            let end = address_end(line, at);
            match bounded_value(line.subrange(at + 2, end), 16, u64::MAX as nat) {
                None => None,
                Some(address) => Some(
                    FrameView {
                        address: address as u64,
                        symbol: if end < line.len() {
                            Some(trim(line.subrange(end + 1, line.len() as int)))
                        } else {
                            None
                        },
                        module: None,
                        file: None,
                        line: None,
                        offset: None,
                    },
                ),
            }
        },
    }
}

/// A line of the fallback tool's output opens the stack of a thread.
pub open spec fn opens_thread_stack(line: Seq<char>) -> bool {
    contains(line, "Thread "@) && contains(line, "dispatch queue"@)
}

/// The frames that the fallback tool's output holds from line `i` on.
///
/// Frames are read after the first line that opens a thread's stack, up to
/// the line that starts the next thread once a frame has been found.
pub open spec fn spindump_frames_from(
    all: Seq<Seq<char>>,
    i: int,
    in_stack: bool,
    found: Seq<FrameView>,
) -> Seq<FrameView>
    decreases all.len() - i,
{
    if i < 0 || i >= all.len() {
        found
    } else {
        let line = trim(all[i]);
        if opens_thread_stack(line) {
            spindump_frames_from(all, i + 1, true, found)
        } else if !in_stack {
            spindump_frames_from(all, i + 1, false, found)
        } else if starts_with(line, "Thread "@) && found.len() > 0 {
            found
        } else {
            spindump_frames_from(
                all,
                i + 1,
                true,
                match spindump_frame(line) {
                    Some(frame) => found.push(frame),
                    None => found,
                },
            )
        }
    }
}

/// The frames that the fallback tool's output holds.
pub open spec fn spindump_frames(output: Seq<char>) -> Seq<FrameView> {
    spindump_frames_from(lines(output), 0, false, Seq::empty())
}

/// Reads address, symbol and module from a line of the primary tool.
fn sample_parts_of(line: &Vec<char>) -> (parts: Option<(u64, Option<String>, Option<String>)>)
    ensures
        parts is Some <==> sample_frame_parts(line@) is Some,
        parts matches Some(p) ==> sample_frame_parts(line@) == Some(
            (p.0, text_of(p.1), text_of(p.2)),
        ),
{
    let open = match find_last(line, &chars_of("[0x")) {
        Some(open) => open,
        None => {
            return None;
        },
    };
    let close = match find_at_or_after(line, &chars_of("]"), open) {
        Some(close) => close,
        None => {
            return None;
        },
    };
    proof {
        reveal_strlit("[0x");
        reveal_strlit("]");
        lemma_rfind_upto(line@, "[0x"@, line@.len() - "[0x"@.len());
        lemma_find_from(line@, "]"@, open as int);
        assert(line@.subrange(open as int, open + 3)[0] == line@[open as int]);
        assert(line@.subrange(open as int, open + 3)[1] == line@[open + 1]);
        assert(line@.subrange(open as int, open + 3)[2] == line@[open + 2]);
    }
    let address = match parse_hex_u64(&slice_of(line, open + 3, close)) {
        Some(address) => address,
        None => {
            return None;
        },
    };
    let head = trimmed(&slice_of(line, 0, open));
    let at = match find_last(&head, &chars_of(" (in ")) {
        Some(at) => at,
        None => {
            return Some((address, Some(string_from_chars(&head)), None));
        },
    };
    let end = match find_at_or_after(&head, &chars_of(")"), at) {
        Some(end) => end,
        None => {
            return Some((address, None, None));
        },
    };
    proof {
        reveal_strlit(" (in ");
        reveal_strlit(")");
        lemma_rfind_upto(head@, " (in "@, head@.len() - " (in "@.len());
        lemma_find_from(head@, ")"@, at as int);
        assert(head@.subrange(at as int, at + 5)[0] == head@[at as int]);
        assert(head@.subrange(at as int, at + 5)[1] == head@[at + 1]);
        assert(head@.subrange(at as int, at + 5)[2] == head@[at + 2]);
        assert(head@.subrange(at as int, at + 5)[3] == head@[at + 3]);
        assert(head@.subrange(at as int, at + 5)[4] == head@[at + 4]);
    }
    let symbol = trimmed(&slice_of(&head, 0, at));
    let module = slice_of(&head, at + 5, end);
    Some((address, Some(string_from_chars(&symbol)), Some(string_from_chars(&module))))
}

/// Reads address, symbol and module from a line of the primary tool's
/// output, such as `main (in app) [0x1000]`.
pub fn extract_sample_frame_info(line: &str) -> (parts: Option<
    (u64, Option<String>, Option<String>),
>)
    ensures
        parts is Some <==> sample_frame_parts(line@) is Some,
        parts matches Some(p) ==> sample_frame_parts(line@) == Some(
            (p.0, text_of(p.1), text_of(p.2)),
        ),
{
    sample_parts_of(&chars_of(line))
}

/// Reads one frame from a line of the primary tool's output.
fn sample_frame_of(line: &Vec<char>) -> (frame: Option<StackFrame>)
    ensures
        frame is Some <==> sample_frame(line@) is Some,
        frame matches Some(f) ==> sample_frame(line@) == Some(f@),
{
    if line.len() == 0 || has_prefix(line, &chars_of("Process:")) || has_prefix(
        line,
        &chars_of("Date/Time:"),
    ) {
        return None;
    }
    match sample_parts_of(line) {
        Some((address, symbol, module)) => Some(
            StackFrame { address, symbol, module, file: None, line: None, offset: None },
        ),
        None => None,
    }
}

/// Reads one frame from a line of the primary tool's output.
pub fn parse_stack_frame_line(line: &str) -> (frame: Option<StackFrame>)
    ensures
        frame is Some <==> sample_frame(line@) is Some,
        frame matches Some(f) ==> sample_frame(line@) == Some(f@),
{
    sample_frame_of(&chars_of(line))
}

/// Reads the frames from the primary tool's output.
pub fn parse_sample_output(output: &str) -> (frames: Vec<StackFrame>)
    ensures
        frame_views(frames@) == sample_frames(output@),
{
    let all = split_lines(&chars_of(output));
    let mut frames: Vec<StackFrame> = Vec::new();
    let mut in_stack = false;
    let mut i: usize = 0;
    assert(frame_views(frames@) =~= Seq::<FrameView>::empty());
    while i < all.len()
        invariant
            i <= all@.len(),
            rows(all@) == lines(output@),
            sample_frames(output@) == sample_frames_from(
                rows(all@),
                i as int,
                in_stack,
                frame_views(frames@),
            ),
        decreases all@.len() - i,
    {
        let line = trimmed(&all[i]);
        i = i + 1;
        if contains_pattern(&line, &chars_of("Call graph:")) || contains_pattern(
            &line,
            &chars_of("Heavy hitters:"),
        ) {
            in_stack = true;
            continue ;
        }
        if !in_stack {
            continue ;
        }
        let ghost before = frame_views(frames@);
        match sample_frame_of(&line) {
            Some(frame) => {
                frames.push(frame);
                assert(frame_views(frames@) =~= before.push(frame@));
            },
            None => {},
        }
        if line.len() == 0 && frames.len() > 0 {
            return frames;
        }
    }
    frames
}

/// Reads one frame from a line of the fallback tool's output.
fn spindump_frame_of(line: &Vec<char>) -> (frame: Option<StackFrame>)
    ensures
        frame is Some <==> spindump_frame(line@) is Some,
        frame matches Some(f) ==> spindump_frame(line@) == Some(f@),
{
    let at = match find_first(line, &chars_of("0x")) {
        Some(at) => at,
        None => {
            return None;
        },
    };
    let length = line.len();
    let end = match find_at_or_after(line, &chars_of(" "), at) {
        Some(space) => space,
        None => length,
    };
    proof {
        reveal_strlit("0x");
        reveal_strlit(" ");
        lemma_find_from(line@, "0x"@, 0);
        lemma_find_from(line@, " "@, at as int);
        assert(line@.subrange(at as int, at + 2)[0] == line@[at as int]);
        assert(line@.subrange(at as int, at + 2)[1] == line@[at + 1]);
        if end < length {
            assert(line@.subrange(end as int, end + 1)[0] == line@[end as int]);
        }
    }
    let address = match parse_hex_u64(&slice_of(line, at + 2, end)) {
        Some(address) => address,
        None => {
            return None;
        },
    };
    let symbol = if end < length {
        Some(string_from_chars(&trimmed(&slice_of(line, end + 1, length))))
    } else {
        None
    };
    Some(StackFrame { address, symbol, module: None, file: None, line: None, offset: None })
}

/// Reads one frame from a line of the fallback tool's output, such as
/// `0x1000 main`.
pub fn parse_spindump_frame_line(line: &str) -> (frame: Option<StackFrame>)
    ensures
        frame is Some <==> spindump_frame(line@) is Some,
        frame matches Some(f) ==> spindump_frame(line@) == Some(f@),
{
    spindump_frame_of(&chars_of(line))
}

/// Reads the frames of the first thread from the fallback tool's output.
pub fn parse_spindump_output(output: &str) -> (frames: Vec<StackFrame>)
    ensures
        frame_views(frames@) == spindump_frames(output@),
{
    let all = split_lines(&chars_of(output));
    let mut frames: Vec<StackFrame> = Vec::new();
    let mut in_stack = false;
    let mut i: usize = 0;
    assert(frame_views(frames@) =~= Seq::<FrameView>::empty());
    while i < all.len()
        invariant
            i <= all@.len(),
            rows(all@) == lines(output@),
            spindump_frames(output@) == spindump_frames_from(
                rows(all@),
                i as int,
                in_stack,
                frame_views(frames@),
            ),
        decreases all@.len() - i,
    {
        let line = trimmed(&all[i]);
        i = i + 1;
        if contains_pattern(&line, &chars_of("Thread ")) && contains_pattern(
            &line,
            &chars_of("dispatch queue"),
        ) {
            in_stack = true;
            continue ;
        }
        if !in_stack {
            continue ;
        }
        if has_prefix(&line, &chars_of("Thread ")) && frames.len() > 0 {
            return frames;
        }
        let ghost before = frame_views(frames@);
        match spindump_frame_of(&line) {
            Some(frame) => {
                frames.push(frame);
                assert(frame_views(frames@) =~= before.push(frame@));
            },
            None => {},
        }
    }
    frames
}

/// How one run of a sampling tool ended.
#[derive(Debug, Clone)]
pub enum ToolOutcome {
    /// The tool ran and reported success; this is what it printed.
    Succeeded(String),
    /// The tool ran and reported failure; this is what it printed as errors.
    Failed(String),
    /// The tool could not be started.
    Unavailable,
}

/// What a capture does after the primary tool has run.
#[derive(Debug)]
pub enum CaptureStep {
    /// The capture is over, with this sample.
    Finished(StackTrace),
    /// The fallback tool is to be run.
    RunFallback,
}

/// The shortest time for which the primary tool is asked to sample.
pub const MIN_SAMPLE_MS: u64 = 100;

/// The time for which the primary tool is asked to sample: the requested
/// one, but at least a tenth of a second.
pub fn effective_sample_ms(duration_ms: u64) -> (ms: u64)
    ensures
        ms == if duration_ms < 100 {
            100
        } else {
            duration_ms
        },
{
    if duration_ms < MIN_SAMPLE_MS {
        MIN_SAMPLE_MS
    } else {
        duration_ms
    }
}

/// The frames that a failed run of the primary tool still yields: those in
/// its error output.
pub open spec fn partial_frames(outcome: ToolOutcome) -> Seq<FrameView> {
    match outcome {
        ToolOutcome::Failed(errors) => sample_frames(errors@),
        _ => Seq::empty(),
    }
}

/// Decides what a capture does once the primary tool has run.
///
/// Success finishes the capture with a complete sample. After a failure the
/// partial output is read; if it holds frames, they finish the capture as an
/// incomplete sample. Else, and where the tool could not be started, the
/// fallback tool is to be run.
pub fn after_primary(
    pid: u32,
    duration_ms: u64,
    timestamp: std::time::SystemTime,
    outcome: &ToolOutcome,
) -> (step: CaptureStep)
    ensures
        match *outcome {
            ToolOutcome::Succeeded(text) => step matches CaptureStep::Finished(sample)
                && is_sample(sample, pid, duration_ms, timestamp, sample_frames(text@), true),
            _ => if partial_frames(*outcome).len() > 0 {
                step matches CaptureStep::Finished(sample) && is_sample(
                    sample,
                    pid,
                    duration_ms,
                    timestamp,
                    partial_frames(*outcome),
                    false,
                )
            } else {
                step is RunFallback
            },
        },
{
    match outcome {
        ToolOutcome::Succeeded(text) => CaptureStep::Finished(
            StackTrace {
                pid,
                thread_id: None,
                timestamp,
                frames: parse_sample_output(text.as_str()),
                sample_duration_ms: duration_ms,
                is_complete: true,
            },
        ),
        ToolOutcome::Failed(errors) => {
            let frames = parse_sample_output(errors.as_str());
            if frames.len() > 0 {
                CaptureStep::Finished(
                    StackTrace {
                        pid,
                        thread_id: None,
                        timestamp,
                        frames,
                        sample_duration_ms: duration_ms,
                        is_complete: false,
                    },
                )
            } else {
                CaptureStep::RunFallback
            }
        },
        ToolOutcome::Unavailable => CaptureStep::RunFallback,
    }
}

/// `sample` is the sample of process `pid` with these frames.
pub open spec fn is_sample(
    sample: StackTrace,
    pid: u32,
    duration_ms: u64,
    timestamp: std::time::SystemTime,
    frames: Seq<FrameView>,
    complete: bool,
) -> bool {
    &&& sample.pid == pid
    &&& sample.thread_id is None
    &&& sample.timestamp == timestamp
    &&& frame_views(sample.frames@) == frames
    &&& sample.sample_duration_ms == duration_ms
    &&& sample.is_complete == complete
}

/// Ends a capture once the fallback tool has run: with the frames it
/// printed where it succeeded, else without frames. Either way the sample is
/// incomplete.
pub fn after_fallback(
    pid: u32,
    duration_ms: u64,
    timestamp: std::time::SystemTime,
    outcome: &ToolOutcome,
) -> (sample: StackTrace)
    ensures
        is_sample(
            sample,
            pid,
            duration_ms,
            timestamp,
            match *outcome {
                ToolOutcome::Succeeded(text) => spindump_frames(text@),
                _ => Seq::empty(),
            },
            false,
        ),
{
    let frames = match outcome {
        ToolOutcome::Succeeded(text) => parse_spindump_output(text.as_str()),
        _ => Vec::new(),
    };
    assert(outcome !is Succeeded ==> frame_views(frames@) =~= Seq::<FrameView>::empty());
    StackTrace {
        pid,
        thread_id: None,
        timestamp,
        frames,
        sample_duration_ms: duration_ms,
        is_complete: false,
    }
}

} // verus!
