//! Bandwidth: how many bytes per second the host sends and receives, from
//! one reading of the interface counters to the next.

use crate::numeric::{bounded_value, parse_u64};
use crate::platform::str_of;
use crate::split::{fields, lines, rows, split_fields, split_lines};
use crate::text::{
    chars_of, contains, contains_pattern, find, find_first, lemma_find_from, slice_of,
    string_from_chars,
};
use crate::throttle::{elapsed, time_since};
use std::collections::HashMap;
use vstd::prelude::*;

verus! {

broadcast use vstd::std_specs::hash::group_hash_axioms;

/// The traffic of the host in bytes per second.
#[derive(Debug, Clone, Copy, PartialEq, Eq, Structural)]
pub struct BandwidthStats {
    pub current_upload_bps: u64,
    pub current_download_bps: u64,
    pub peak_upload_bps: u64,
    pub peak_download_bps: u64,
    pub average_upload_bps: u64,
    pub average_download_bps: u64,
}

/// The counters of one network interface.
#[derive(Debug, Clone)]
pub struct InterfaceStats {
    pub name: String,
    pub is_active: bool,
    pub bytes_sent: u64,
    pub bytes_received: u64,
    pub packets_sent: u64,
    pub packets_received: u64,
    pub errors_in: u64,
    pub errors_out: u64,
    pub drops_in: u64,
    pub drops_out: u64,
}

/// The counters of one interface as plain values.
pub struct InterfaceView {
    pub name: Seq<char>,
    pub is_active: bool,
    pub bytes_sent: u64,
    pub bytes_received: u64,
    pub packets_sent: u64,
    pub packets_received: u64,
    pub errors_in: u64,
    pub errors_out: u64,
    pub drops_in: u64,
    pub drops_out: u64,
}

impl View for InterfaceStats {
    type V = InterfaceView;

    open spec fn view(&self) -> InterfaceView {
        InterfaceView {
            name: self.name@,
            is_active: self.is_active,
            bytes_sent: self.bytes_sent,
            bytes_received: self.bytes_received,
            packets_sent: self.packets_sent,
            packets_received: self.packets_received,
            errors_in: self.errors_in,
            errors_out: self.errors_out,
            drops_in: self.drops_in,
            drops_out: self.drops_out,
        }
    }
}

/// The views of a run of interfaces.
pub open spec fn interface_views(interfaces: Seq<InterfaceStats>) -> Seq<InterfaceView> {
    interfaces.map_values(|i: InterfaceStats| i@)
}

/// What was read of one interface the last time.
#[derive(Debug, Clone, Copy, PartialEq, Eq, Structural)]
pub struct InterfaceSnapshot {
    pub bytes_sent: u64,
    pub bytes_received: u64,
    pub timestamp_ms: u64,
}

impl Default for BandwidthStats {
    fn default() -> (stats: Self)
        ensures
            stats == no_traffic(),
    {
        BandwidthStats {
            current_upload_bps: 0,
            current_download_bps: 0,
            peak_upload_bps: 0,
            peak_download_bps: 0,
            average_upload_bps: 0,
            average_download_bps: 0,
        }
    }
}

/// Statistics without any traffic.
pub open spec fn no_traffic() -> BandwidthStats {
    BandwidthStats {
        current_upload_bps: 0,
        current_download_bps: 0,
        peak_upload_bps: 0,
        peak_download_bps: 0,
        average_upload_bps: 0,
        average_download_bps: 0,
    }
}

/// The sum of two counters, held at `u64::MAX`.
pub open spec fn capped_sum(a: u64, b: u64) -> u64 {
    if a + b > u64::MAX {
        u64::MAX
    } else {
        (a + b) as u64
    }
}

/// Adds two counters; the sum stops at `u64::MAX`.
pub fn add_capped(a: u64, b: u64) -> (sum: u64)
    ensures
        sum == capped_sum(a, b),
{
    if a > u64::MAX - b {
        u64::MAX
    } else {
        a + b
    }
}

/// The bytes per second at which a counter went from `before` to `now` in
/// `elapsed_ms`: 0 where the counter did not grow or no time has passed,
/// and never above `u64::MAX`.
pub open spec fn byte_rate(before: u64, now: u64, elapsed_ms: nat) -> u64 {
    if elapsed_ms == 0 || now <= before {
        0
    } else if (now - before) * 1000 / (elapsed_ms as int) > u64::MAX {
        u64::MAX
    } else {
        ((now - before) * 1000 / (elapsed_ms as int)) as u64
    }
}

/// Computes the rate at which a counter grew.
pub fn rate_of(before: u64, now: u64, elapsed_ms: u64) -> (rate: u64)
    ensures
        rate == byte_rate(before, now, elapsed_ms as nat),
{
    if elapsed_ms == 0 || now <= before {
        return 0;
    }
    let scaled: u128 = ((now - before) as u128) * 1000 / (elapsed_ms as u128);
    if scaled > u64::MAX as u128 {
        u64::MAX
    } else {
        scaled as u64
    }
}

/// The first index below `n` at which `snapshots` holds `name`, or `-1`.
pub open spec fn snapshot_index(
    snapshots: Seq<(Seq<char>, InterfaceSnapshot)>,
    name: Seq<char>,
    n: int,
) -> int
    decreases n,
{
    if n <= 0 || n > snapshots.len() {
        -1
    } else if snapshot_index(snapshots, name, n - 1) >= 0 {
        snapshot_index(snapshots, name, n - 1)
    } else if snapshots[n - 1].0 == name {
        n - 1
    } else {
        -1
    }
}

/// The snapshots after `snapshot` has been noted for the interface `name`.
pub open spec fn with_snapshot(
    snapshots: Seq<(Seq<char>, InterfaceSnapshot)>,
    name: Seq<char>,
    snapshot: InterfaceSnapshot,
) -> Seq<(Seq<char>, InterfaceSnapshot)> {
    let i = snapshot_index(snapshots, name, snapshots.len() as int);
    if i >= 0 {
        snapshots.update(i, (name, snapshot))
    } else {
        snapshots.push((name, snapshot))
    }
}

/// What a round of readings has summed up so far.
pub struct Round {
    pub upload_bps: u64,
    pub download_bps: u64,
    pub snapshots: Seq<(Seq<char>, InterfaceSnapshot)>,
}

/// The round after the reading of one more interface at time `now`. An
/// interface that is not active is passed over. An active one adds its
/// rates since its last snapshot, and gets a new snapshot.
pub open spec fn round_step(round: Round, interface: InterfaceView, now: u64) -> Round {
    if !interface.is_active {
        round
    } else {
        let i = snapshot_index(round.snapshots, interface.name, round.snapshots.len() as int);
        let (up, down) = if i >= 0 {
            let last = round.snapshots[i].1;
            (
                byte_rate(last.bytes_sent, interface.bytes_sent, elapsed(now, last.timestamp_ms)),
                byte_rate(
                    last.bytes_received,
                    interface.bytes_received,
                    elapsed(now, last.timestamp_ms),
                ),
            )
        } else {
            (0u64, 0u64)
        };
        Round {
            upload_bps: capped_sum(round.upload_bps, up),
            download_bps: capped_sum(round.download_bps, down),
            snapshots: with_snapshot(
                round.snapshots,
                interface.name,
                InterfaceSnapshot {
                    bytes_sent: interface.bytes_sent,
                    bytes_received: interface.bytes_received,
                    timestamp_ms: now,
                },
            ),
        }
    }
}

/// The round after the readings of the first `n` interfaces.
pub open spec fn round_after(
    start: Round,
    interfaces: Seq<InterfaceView>,
    now: u64,
    n: int,
) -> Round
    decreases n,
{
    if n <= 0 || n > interfaces.len() {
        start
    } else {
        round_step(round_after(start, interfaces, now, n - 1), interfaces[n - 1], now)
    }
}

/// What the bandwidth monitor holds, as plain values.
pub struct MonitorState {
    pub snapshots: Seq<(Seq<char>, InterfaceSnapshot)>,
    pub stats: BandwidthStats,
    pub peak_upload: u64,
    pub peak_download: u64,
    pub sample_count: u64,
    pub total_upload: u64,
    pub total_download: u64,
}

/// The greater of two counters.
pub open spec fn greater(a: u64, b: u64) -> u64 {
    if a > b {
        a
    } else {
        b
    }
}

impl MonitorState {
    /// The statistics agree with the bookkeeping: the peaks that are handed
    /// out are the peaks on record.
    pub open spec fn in_order(self) -> bool {
        &&& self.stats.peak_upload_bps == self.peak_upload
        &&& self.stats.peak_download_bps == self.peak_download
    }

    /// The state after a round of readings of `interfaces` at time `now`.
    ///
    /// The current rates are those of the round. A peak rises when a rate
    /// exceeds it. The averages are the sums of all rates so far over the
    /// number of rounds.
    pub open spec fn after_round(self, interfaces: Seq<InterfaceView>, now: u64) -> MonitorState {
        let round = round_after(
            Round { upload_bps: 0, download_bps: 0, snapshots: self.snapshots },
            interfaces,
            now,
            interfaces.len() as int,
        );
        let count = capped_sum(self.sample_count, 1);
        let total_upload = capped_sum(self.total_upload, round.upload_bps);
        let total_download = capped_sum(self.total_download, round.download_bps);
        MonitorState {
            snapshots: round.snapshots,
            stats: BandwidthStats {
                current_upload_bps: round.upload_bps,
                current_download_bps: round.download_bps,
                peak_upload_bps: if round.upload_bps > self.peak_upload {
                    round.upload_bps
                } else {
                    self.stats.peak_upload_bps
                },
                peak_download_bps: if round.download_bps > self.peak_download {
                    round.download_bps
                } else {
                    self.stats.peak_download_bps
                },
                average_upload_bps: (total_upload / count) as u64,
                average_download_bps: (total_download / count) as u64,
            },
            peak_upload: greater(self.peak_upload, round.upload_bps),
            peak_download: greater(self.peak_download, round.download_bps),
            sample_count: count,
            total_upload,
            total_download,
        }
    }
}

/// A round of readings keeps the statistics in agreement with the
/// bookkeeping. Peaks never fall, and no current rate exceeds its peak.
pub proof fn lemma_round_keeps_order(state: MonitorState, interfaces: Seq<InterfaceView>, now: u64)
    requires
        state.in_order(),
    ensures
        state.after_round(interfaces, now).in_order(),
        state.after_round(interfaces, now).stats.peak_upload_bps >= state.stats.peak_upload_bps,
        state.after_round(interfaces, now).stats.peak_download_bps
            >= state.stats.peak_download_bps,
        state.after_round(interfaces, now).stats.peak_upload_bps >= state.after_round(
            interfaces,
            now,
        ).stats.current_upload_bps,
        state.after_round(interfaces, now).stats.peak_download_bps >= state.after_round(
            interfaces,
            now,
        ).stats.current_download_bps,
{
}

/// A line of the interface configuration starts the description of an
/// interface: it is not indented and holds a colon.
pub open spec fn is_interface_header(line: Seq<char>) -> bool {
    line.len() > 0 && line[0] != '\t' && line[0] != ' ' && contains(line, ":"@)
}

/// The interface that a header line describes: its name is what precedes
/// the first colon; it is active if the line says both `UP` and `RUNNING`.
/// The configuration holds no counters.
pub open spec fn interface_of_header(line: Seq<char>) -> InterfaceView {
    InterfaceView {
        name: line.subrange(0, find(line, ":"@)->0),
        is_active: contains(line, "UP"@) && contains(line, "RUNNING"@),
        bytes_sent: 0,
        bytes_received: 0,
        packets_sent: 0,
        packets_received: 0,
        errors_in: 0,
        errors_out: 0,
        drops_in: 0,
        drops_out: 0,
    }
}

/// The interfaces that the first `n` lines of the configuration describe.
pub open spec fn configured_in(all: Seq<Seq<char>>, n: int) -> Seq<InterfaceView>
    decreases n,
{
    if n <= 0 || n > all.len() {
        Seq::empty()
    } else if is_interface_header(all[n - 1]) {
        configured_in(all, n - 1).push(interface_of_header(all[n - 1]))
    } else {
        configured_in(all, n - 1)
    }
}

/// The interfaces that the interface configuration describes.
pub open spec fn configured_interfaces(output: Seq<char>) -> Seq<InterfaceView> {
    configured_in(lines(output), lines(output).len() as int)
}

/// The counter that a field writes, 0 where it writes none.
pub open spec fn counter_of(field: Seq<char>) -> u64 {
    match bounded_value(field, 10, u64::MAX as nat) {
        Some(v) => v as u64,
        None => 0,
    }
}

/// The interface that a line of the interface statistics describes: a line
/// of at least eleven fields, with the name first and the counters for
/// packets, errors and bytes, in and out, from the fifth field on. The
/// interface is active if it has moved any bytes.
pub open spec fn interface_of_row(line: Seq<char>) -> Option<InterfaceView> {
    let row = fields(line);
    if row.len() >= 11 {
        Some(
            InterfaceView {
                name: row[0],
                is_active: counter_of(row[6]) > 0 || counter_of(row[9]) > 0,
                bytes_sent: counter_of(row[9]),
                bytes_received: counter_of(row[6]),
                packets_sent: counter_of(row[7]),
                packets_received: counter_of(row[4]),
                errors_in: counter_of(row[5]),
                errors_out: counter_of(row[8]),
                drops_in: 0,
                drops_out: 0,
            },
        )
    } else {
        None
    }
}

/// The interfaces that the lines `1..n` of the statistics describe; line 0
/// is the header.
pub open spec fn counted_in(all: Seq<Seq<char>>, n: int) -> Seq<InterfaceView>
    decreases n,
{
    if n <= 1 || n > all.len() {
        Seq::empty()
    } else {
        match interface_of_row(all[n - 1]) {
            Some(i) => counted_in(all, n - 1).push(i),
            None => counted_in(all, n - 1),
        }
    }
}

/// The interfaces that the interface statistics describe.
pub open spec fn counted_interfaces(output: Seq<char>) -> Seq<InterfaceView> {
    counted_in(lines(output), lines(output).len() as int)
}

/// The interfaces that the host reports: those of the configuration, or,
/// where it describes none, those of the statistics.
pub open spec fn reported_interfaces(configuration: Option<Seq<char>>, statistics: Option<
    Seq<char>,
>) -> Seq<InterfaceView> {
    let configured = match configuration {
        Some(text) => configured_interfaces(text),
        None => Seq::empty(),
    };
    if configured.len() > 0 {
        configured
    } else {
        match statistics {
            Some(text) => counted_interfaces(text),
            None => Seq::empty(),
        }
    }
}

/// Reads a counter, 0 where the field writes none.
fn parse_counter(field: &Vec<char>) -> (v: u64)
    ensures
        v == counter_of(field@),
{
    match parse_u64(field) {
        Some(v) => v,
        None => 0,
    }
}

/// The traffic that is put down to process `pid`, if any is.
pub open spec fn traffic_of(per_process: Map<u32, (u64, u64)>, pid: u32) -> Option<(u64, u64)> {
    if per_process.contains_key(pid) {
        Some(per_process[pid])
    } else {
        None
    }
}

/// Monitors the traffic of the host.
#[derive(Debug)]
pub struct BandwidthMonitor {
    interface_snapshots: Vec<(String, InterfaceSnapshot)>,
    process_bandwidth: HashMap<u32, (u64, u64)>,
    current_stats: BandwidthStats,
    peak_upload: u64,
    peak_download: u64,
    sample_count: u64,
    total_upload: u64,
    total_download: u64,
}

/// The views of a run of snapshots.
pub open spec fn snapshot_views(snapshots: Seq<(String, InterfaceSnapshot)>) -> Seq<
    (Seq<char>, InterfaceSnapshot),
> {
    snapshots.map_values(|s: (String, InterfaceSnapshot)| (s.0@, s.1))
}

/// A snapshot of `name` at `i`, with none before it, is what every longer
/// search finds.
proof fn lemma_snapshot_index(
    snapshots: Seq<(Seq<char>, InterfaceSnapshot)>,
    name: Seq<char>,
    i: int,
    n: int,
)
    requires
        0 <= i < n <= snapshots.len(),
        snapshot_index(snapshots, name, i) < 0,
        snapshots[i].0 == name,
    ensures
        snapshot_index(snapshots, name, n) == i,
    decreases n,
{
    if n > i + 1 {
        lemma_snapshot_index(snapshots, name, i, n - 1);
    }
}

/// What `snapshot_index` returns is a snapshot of that name.
proof fn lemma_snapshot_named(snapshots: Seq<(Seq<char>, InterfaceSnapshot)>, name: Seq<char>, n: int)
    requires
        0 <= n <= snapshots.len(),
    ensures
        -1 <= snapshot_index(snapshots, name, n) < n,
        snapshot_index(snapshots, name, n) >= 0 ==> snapshots[snapshot_index(
            snapshots,
            name,
            n,
        )].0 == name,
    decreases n,
{
    if n > 0 {
        lemma_snapshot_named(snapshots, name, n - 1);
    }
}

impl View for BandwidthMonitor {
    type V = MonitorState;

    closed spec fn view(&self) -> MonitorState {
        MonitorState {
            snapshots: snapshot_views(self.interface_snapshots@),
            stats: self.current_stats,
            peak_upload: self.peak_upload,
            peak_download: self.peak_download,
            sample_count: self.sample_count,
            total_upload: self.total_upload,
            total_download: self.total_download,
        }
    }
}

impl BandwidthMonitor {
    /// The traffic that is put down to single processes.
    pub closed spec fn per_process(&self) -> Map<u32, (u64, u64)> {
        self.process_bandwidth@
    }

    /// A monitor that has read nothing yet.
    pub fn new() -> (monitor: Self)
        ensures
            monitor.per_process() == Map::<u32, (u64, u64)>::empty(),
            monitor@.in_order(),
            monitor@ == (MonitorState {
                snapshots: Seq::empty(),
                stats: no_traffic(),
                peak_upload: 0,
                peak_download: 0,
                sample_count: 0,
                total_upload: 0,
                total_download: 0,
            }),
    {
        let monitor = BandwidthMonitor {
            interface_snapshots: Vec::new(),
            process_bandwidth: HashMap::new(),
            current_stats: BandwidthStats::default(),
            peak_upload: 0,
            peak_download: 0,
            sample_count: 0,
            total_upload: 0,
            total_download: 0,
        };
        assert(monitor@.snapshots =~= Seq::empty());
        monitor
    }

    /// The index of the snapshot of the interface `name`.
    fn find_snapshot(&self, name: &String) -> (found: Option<usize>)
        ensures
            found is Some <==> snapshot_index(
                self@.snapshots,
                name@,
                self@.snapshots.len() as int,
            ) >= 0,
            found matches Some(i) ==> i == snapshot_index(
                self@.snapshots,
                name@,
                self@.snapshots.len() as int,
            ) && i < self.interface_snapshots@.len(),
    {
        let mut i: usize = 0;
        while i < self.interface_snapshots.len()
            invariant
                i <= self.interface_snapshots@.len(),
                snapshot_index(self@.snapshots, name@, i as int) < 0,
            decreases self.interface_snapshots@.len() - i,
        {
            if self.interface_snapshots[i].0 == *name {
                proof {
                    lemma_snapshot_index(
                        self@.snapshots,
                        name@,
                        i as int,
                        self@.snapshots.len() as int,
                    );
                }
                return Some(i);
            }
            i = i + 1;
        }
        None
    }

    /// Reads the interfaces that the interface configuration describes.
    pub fn parse_ifconfig(output: &str) -> (interfaces: Vec<InterfaceStats>)
        ensures
            interface_views(interfaces@) == configured_interfaces(output@),
    {
        let all = split_lines(&chars_of(output));
        let colon = chars_of(":");
        let mut interfaces: Vec<InterfaceStats> = Vec::new();
        let mut i: usize = 0;
        while i < all.len()
            invariant
                i <= all@.len(),
                rows(all@) == lines(output@),
                colon@ == ":"@,
                interface_views(interfaces@) == configured_in(rows(all@), i as int),
            decreases all@.len() - i,
        {
            let line = &all[i];
            if line.len() > 0 && line[0] != '\t' && line[0] != ' ' {
                match find_first(line, &colon) {
                    Some(at) => {
                        proof {
                            crate::text::lemma_find_contains(line@, ":"@);
                            lemma_find_from(line@, ":"@, 0);
                        }
                        let found = InterfaceStats {
                            name: string_from_chars(&slice_of(line, 0, at)),
                            is_active: contains_pattern(line, &chars_of("UP")) && contains_pattern(
                                line,
                                &chars_of("RUNNING"),
                            ),
                            bytes_sent: 0,
                            bytes_received: 0,
                            packets_sent: 0,
                            packets_received: 0,
                            errors_in: 0,
                            errors_out: 0,
                            drops_in: 0,
                            drops_out: 0,
                        };
                        interfaces.push(found);
                    },
                    None => {
                        proof {
                            crate::text::lemma_find_contains(line@, ":"@);
                        }
                    },
                }
            }
            i = i + 1;
        }
        interfaces
    }

    /// Reads the interfaces that the interface statistics describe.
    pub fn parse_netstat_interfaces(output: &str) -> (interfaces: Vec<InterfaceStats>)
        ensures
            interface_views(interfaces@) == counted_interfaces(output@),
    {
        let all = split_lines(&chars_of(output));
        let mut interfaces: Vec<InterfaceStats> = Vec::new();
        let mut i: usize = 1;
        while i < all.len()
            invariant
                1 <= i,
                i <= all@.len() || all@.len() == 0,
                rows(all@) == lines(output@),
                interface_views(interfaces@) == counted_in(rows(all@), i as int),
            decreases all@.len() - i,
        {
            let row = split_fields(&all[i]);
            if row.len() >= 11 {
                let bytes_in = parse_counter(&row[6]);
                let bytes_out = parse_counter(&row[9]);
                let found = InterfaceStats {
                    name: string_from_chars(&row[0]),
                    is_active: bytes_in > 0 || bytes_out > 0,
                    bytes_sent: bytes_out,
                    bytes_received: bytes_in,
                    packets_sent: parse_counter(&row[7]),
                    packets_received: parse_counter(&row[4]),
                    errors_in: parse_counter(&row[5]),
                    errors_out: parse_counter(&row[8]),
                    drops_in: 0,
                    drops_out: 0,
                };
                interfaces.push(found);
            }
            i = i + 1;
        }
        interfaces
    }

    /// The interfaces that the host reports. `ifconfig_output` is the
    /// interface configuration; `netstat_output` the interface statistics,
    /// which are read only where the configuration describes no interface.
    pub fn get_interface_stats(ifconfig_output: Option<&str>, netstat_output: Option<&str>) -> (interfaces:
        Vec<InterfaceStats>)
        ensures
            interface_views(interfaces@) == reported_interfaces(
                str_of(ifconfig_output),
                str_of(netstat_output),
            ),
    {
        let configured = match ifconfig_output {
            Some(text) => Self::parse_ifconfig(text),
            None => Vec::new(),
        };
        if configured.len() > 0 {
            return configured;
        }
        let counted = match netstat_output {
            Some(text) => Self::parse_netstat_interfaces(text),
            None => Vec::new(),
        };
        counted
    }

    /// The traffic that is put down to process `pid`, sent and received.
    pub fn get_process_bandwidth(&self, pid: u32) -> (traffic: Option<(u64, u64)>)
        ensures
            traffic == traffic_of(self.per_process(), pid),
    {
        match self.process_bandwidth.get(&pid) {
            Some(traffic) => Some(*traffic),
            None => None,
        }
    }

    /// Reads the traffic of single processes from what the host's traffic
    /// tool prints. Nothing is read from it yet: what the monitor holds
    /// stays as it is.
    pub fn parse_nettop(&mut self, _output: &str)
        ensures
            *final(self) == *old(self),
    {
    }

    /// Takes a round of readings of `interfaces` at time `now`.
    pub fn refresh(&mut self, interfaces: &Vec<InterfaceStats>, now: u64)
        ensures
            final(self).per_process() == old(self).per_process(),
            final(self)@ == old(self)@.after_round(interface_views(interfaces@), now),
            old(self)@.in_order() ==> final(self)@.in_order(),
            old(self)@.in_order() ==> final(self)@.stats.peak_upload_bps >= old(
                self,
            )@.stats.peak_upload_bps && final(self)@.stats.peak_download_bps >= old(
                self,
            )@.stats.peak_download_bps,
    {
        proof {
            if old(self)@.in_order() {
                lemma_round_keeps_order(old(self)@, interface_views(interfaces@), now);
            }
        }
        let mut upload: u64 = 0;
        let mut download: u64 = 0;
        let ghost start = Round { upload_bps: 0, download_bps: 0, snapshots: self@.snapshots };
        let mut i: usize = 0;
        while i < interfaces.len()
            invariant
                i <= interfaces@.len(),
                start == (Round { upload_bps: 0, download_bps: 0, snapshots: old(self)@.snapshots }),
                self.process_bandwidth == old(self).process_bandwidth,
                self.current_stats == old(self).current_stats,
                self.peak_upload == old(self).peak_upload,
                self.peak_download == old(self).peak_download,
                self.sample_count == old(self).sample_count,
                self.total_upload == old(self).total_upload,
                self.total_download == old(self).total_download,
                (Round { upload_bps: upload, download_bps: download, snapshots: self@.snapshots })
                    == round_after(start, interface_views(interfaces@), now, i as int),
            decreases interfaces@.len() - i,
        {
            let interface = &interfaces[i];
            if interface.is_active {
                let snapshot = InterfaceSnapshot {
                    bytes_sent: interface.bytes_sent,
                    bytes_received: interface.bytes_received,
                    timestamp_ms: now,
                };
                let ghost before = self@.snapshots;
                match self.find_snapshot(&interface.name) {
                    Some(at) => {
                        let last = self.interface_snapshots[at].1;
                        let passed = time_since(now, last.timestamp_ms);
                        upload = add_capped(
                            upload,
                            rate_of(last.bytes_sent, interface.bytes_sent, passed),
                        );
                        download = add_capped(
                            download,
                            rate_of(last.bytes_received, interface.bytes_received, passed),
                        );
                        proof {
                            lemma_snapshot_named(before, interface@.name, before.len() as int);
                        }
                        let entry = self.interface_snapshots.remove(at);
                        self.interface_snapshots.insert(at, (entry.0, snapshot));
                        assert(self@.snapshots =~= before.update(
                            at as int,
                            (interface@.name, snapshot),
                        ));
                    },
                    None => {
                        self.interface_snapshots.push((interface.name.clone(), snapshot));
                        assert(self@.snapshots =~= before.push((interface@.name, snapshot)));
                    },
                }
            }
            i = i + 1;
        }
        self.current_stats.current_upload_bps = upload;
        self.current_stats.current_download_bps = download;
        if upload > self.peak_upload {
            self.peak_upload = upload;
            self.current_stats.peak_upload_bps = upload;
        }
        if download > self.peak_download {
            self.peak_download = download;
            self.current_stats.peak_download_bps = download;
        }
        self.sample_count = add_capped(self.sample_count, 1);
        self.total_upload = add_capped(self.total_upload, upload);
        self.total_download = add_capped(self.total_download, download);
        self.current_stats.average_upload_bps = self.total_upload / self.sample_count;
        self.current_stats.average_download_bps = self.total_download / self.sample_count;
    }

    /// Takes a round of readings and hands out the statistics.
    pub fn get_current_bandwidth(&mut self, interfaces: &Vec<InterfaceStats>, now: u64) -> (stats:
        BandwidthStats)
        ensures
            final(self).per_process() == old(self).per_process(),
            final(self)@ == old(self)@.after_round(interface_views(interfaces@), now),
            old(self)@.in_order() ==> final(self)@.in_order(),
            stats == final(self)@.stats,
    {
        self.refresh(interfaces, now);
        self.current_stats
    }
}

} // verus!
