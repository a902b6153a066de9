//! The network monitor: connections and bandwidth together, with a short
//! cache so that the host's tools are not run more often than needed.

use crate::bandwidth::{
    add_capped, capped_sum, interface_views, reported_interfaces, traffic_of, BandwidthMonitor,
    BandwidthStats, InterfaceStats, InterfaceView, MonitorState,
};
use crate::connections::{
    connection_views, owned_in, refreshed_connections, ConnectionTracker, ConnectionView,
    NetworkConnection,
};
use crate::listing::texts;
use crate::platform::{borrow_text, text_of};
use crate::throttle::{elapsed, time_since};
use vstd::prelude::*;

verus! {

/// For how long metrics are handed out from the cache.
pub const CACHE_DURATION_MS: u64 = 1500;

/// The network metrics of the host at one moment.
#[derive(Debug)]
pub struct NetworkMetrics {
    pub connections: Vec<NetworkConnection>,
    pub bandwidth: BandwidthStats,
    pub total_bytes_sent: u64,
    pub total_bytes_received: u64,
    pub packets_sent: u64,
    pub packets_received: u64,
    pub active_interfaces: Vec<String>,
}

/// Network metrics as plain values.
pub struct MetricsView {
    pub connections: Seq<ConnectionView>,
    pub bandwidth: BandwidthStats,
    pub total_bytes_sent: u64,
    pub total_bytes_received: u64,
    pub packets_sent: u64,
    pub packets_received: u64,
    pub active_interfaces: Seq<Seq<char>>,
}

impl View for NetworkMetrics {
    type V = MetricsView;

    open spec fn view(&self) -> MetricsView {
        MetricsView {
            connections: connection_views(self.connections@),
            bandwidth: self.bandwidth,
            total_bytes_sent: self.total_bytes_sent,
            total_bytes_received: self.total_bytes_received,
            packets_sent: self.packets_sent,
            packets_received: self.packets_received,
            active_interfaces: texts(self.active_interfaces@),
        }
    }
}

impl Clone for NetworkMetrics {
    fn clone(&self) -> (r: Self)
        ensures
            r@ == self@,
    {
        let mut connections: Vec<NetworkConnection> = Vec::new();
        let mut i: usize = 0;
        while i < self.connections.len()
            invariant
                i <= self.connections@.len(),
                connections@.len() == i,
                forall|j: int|
                    0 <= j < i ==> (#[trigger] connections@[j])@ == self.connections@[j]@,
            decreases self.connections@.len() - i,
        {
            connections.push(self.connections[i].clone());
            i = i + 1;
        }
        let mut names: Vec<String> = Vec::new();
        let mut k: usize = 0;
        while k < self.active_interfaces.len()
            invariant
                k <= self.active_interfaces@.len(),
                names@.len() == k,
                forall|j: int|
                    0 <= j < k ==> (#[trigger] names@[j])@ == self.active_interfaces@[j]@,
            decreases self.active_interfaces@.len() - k,
        {
            names.push(self.active_interfaces[k].clone());
            k = k + 1;
        }
        let r = NetworkMetrics {
            connections,
            bandwidth: self.bandwidth,
            total_bytes_sent: self.total_bytes_sent,
            total_bytes_received: self.total_bytes_received,
            packets_sent: self.packets_sent,
            packets_received: self.packets_received,
            active_interfaces: names,
        };
        assert(r@.connections =~= self@.connections);
        assert(r@.active_interfaces =~= self@.active_interfaces);
        r
    }
}

/// What the host's tools printed, where they could be run: the connection
/// table, the open-file listing of network handles, the interface
/// configuration and the interface statistics.
#[derive(Debug, Clone)]
pub struct NetworkInputs {
    pub connection_table: Option<String>,
    pub open_files: Option<String>,
    pub interface_configuration: Option<String>,
    pub interface_statistics: Option<String>,
}

/// The sums of the counters of the first `n` interfaces, each held at
/// `u64::MAX`: bytes sent, bytes received, packets sent, packets received.
pub open spec fn totals_in(interfaces: Seq<InterfaceView>, n: int) -> (u64, u64, u64, u64)
    decreases n,
{
    if n <= 0 || n > interfaces.len() {
        (0, 0, 0, 0)
    } else {
        let rest = totals_in(interfaces, n - 1);
        (
            capped_sum(rest.0, interfaces[n - 1].bytes_sent),
            capped_sum(rest.1, interfaces[n - 1].bytes_received),
            capped_sum(rest.2, interfaces[n - 1].packets_sent),
            capped_sum(rest.3, interfaces[n - 1].packets_received),
        )
    }
}

/// The names of those of the first `n` interfaces that are active.
pub open spec fn active_in(interfaces: Seq<InterfaceView>, n: int) -> Seq<Seq<char>>
    decreases n,
{
    if n <= 0 || n > interfaces.len() {
        Seq::empty()
    } else if interfaces[n - 1].is_active {
        active_in(interfaces, n - 1).push(interfaces[n - 1].name)
    } else {
        active_in(interfaces, n - 1)
    }
}

/// The metrics that connections, bandwidth statistics and interfaces make.
pub open spec fn metrics_of(
    connections: Seq<ConnectionView>,
    bandwidth: BandwidthStats,
    interfaces: Seq<InterfaceView>,
) -> MetricsView {
    let totals = totals_in(interfaces, interfaces.len() as int);
    MetricsView {
        connections,
        bandwidth,
        total_bytes_sent: totals.0,
        total_bytes_received: totals.1,
        packets_sent: totals.2,
        packets_received: totals.3,
        active_interfaces: active_in(interfaces, interfaces.len() as int),
    }
}

impl NetworkInputs {
    /// The interfaces that the inputs report.
    pub open spec fn interfaces(&self) -> Seq<InterfaceView> {
        reported_interfaces(
            text_of(self.interface_configuration),
            text_of(self.interface_statistics),
        )
    }

    /// The connections that the inputs report.
    pub open spec fn connections(&self) -> Seq<ConnectionView> {
        refreshed_connections(text_of(self.connection_table), text_of(self.open_files))
    }
}

/// Monitors the network of the host.
#[derive(Debug)]
pub struct NetworkMonitor {
    connection_tracker: ConnectionTracker,
    bandwidth_monitor: BandwidthMonitor,
    last_update: u64,
    cache_duration_ms: u64,
    cached_metrics: Option<NetworkMetrics>,
}

impl NetworkMonitor {
    /// The connections that the monitor holds.
    pub closed spec fn connections(&self) -> Seq<ConnectionView> {
        self.connection_tracker.held()
    }

    /// What the bandwidth monitor holds.
    pub closed spec fn bandwidth(&self) -> MonitorState {
        self.bandwidth_monitor@
    }

    /// The traffic that is put down to single processes.
    pub closed spec fn per_process(&self) -> Map<u32, (u64, u64)> {
        self.bandwidth_monitor.per_process()
    }

    /// The metrics in the cache.
    pub closed spec fn cached(&self) -> Option<MetricsView> {
        match self.cached_metrics {
            Some(m) => Some(m@),
            None => None,
        }
    }

    /// When the cache was filled.
    pub closed spec fn updated_at(&self) -> u64 {
        self.last_update
    }

    /// For how long the cache is used.
    pub closed spec fn cache_duration(&self) -> u64 {
        self.cache_duration_ms
    }

    /// The cache holds metrics that are not older than the cache duration.
    pub open spec fn cache_is_fresh(&self, now: u64) -> bool {
        self.cached() is Some && elapsed(now, self.updated_at()) < self.cache_duration()
    }

    /// A monitor that holds nothing yet, made at time `now`.
    pub fn new(now: u64) -> (monitor: Self)
        ensures
            monitor.cached() is None,
            monitor.updated_at() == now,
            monitor.cache_duration() == 1500,
            monitor.connections() == Seq::<ConnectionView>::empty(),
            monitor.per_process() == Map::<u32, (u64, u64)>::empty(),
            monitor.bandwidth().in_order(),
    {
        NetworkMonitor {
            connection_tracker: ConnectionTracker::new(),
            bandwidth_monitor: BandwidthMonitor::new(),
            last_update: now,
            cache_duration_ms: CACHE_DURATION_MS,
            cached_metrics: None,
        }
    }

    /// Whether the host's tools must be run before metrics are asked for at
    /// time `now`: not while the cache is fresh.
    pub fn needs_inputs(&self, now: u64) -> (needed: bool)
        ensures
            needed == !self.cache_is_fresh(now),
    {
        match &self.cached_metrics {
            Some(_) => time_since(now, self.last_update) >= self.cache_duration_ms,
            None => true,
        }
    }

    /// The sums of the counters of all interfaces: bytes sent, bytes
    /// received, packets sent, packets received.
    pub fn calculate_totals(interfaces: &Vec<InterfaceStats>) -> (totals: (u64, u64, u64, u64))
        ensures
            totals == totals_in(interface_views(interfaces@), interfaces@.len() as int),
    {
        let mut total_sent: u64 = 0;
        let mut total_received: u64 = 0;
        let mut packets_sent: u64 = 0;
        let mut packets_received: u64 = 0;
        let mut i: usize = 0;
        while i < interfaces.len()
            invariant
                i <= interfaces@.len(),
                (total_sent, total_received, packets_sent, packets_received) == totals_in(
                    interface_views(interfaces@),
                    i as int,
                ),
            decreases interfaces@.len() - i,
        {
            total_sent = add_capped(total_sent, interfaces[i].bytes_sent);
            total_received = add_capped(total_received, interfaces[i].bytes_received);
            packets_sent = add_capped(packets_sent, interfaces[i].packets_sent);
            packets_received = add_capped(packets_received, interfaces[i].packets_received);
            i = i + 1;
        }
        (total_sent, total_received, packets_sent, packets_received)
    }

    /// The names of the interfaces that are active.
    fn active_names(interfaces: &Vec<InterfaceStats>) -> (names: Vec<String>)
        ensures
            texts(names@) == active_in(interface_views(interfaces@), interfaces@.len() as int),
    {
        let mut names: Vec<String> = Vec::new();
        let mut i: usize = 0;
        while i < interfaces.len()
            invariant
                i <= interfaces@.len(),
                texts(names@) == active_in(interface_views(interfaces@), i as int),
            decreases interfaces@.len() - i,
        {
            if interfaces[i].is_active {
                let name = interfaces[i].name.clone();
                names.push(name);
            }
            i = i + 1;
        }
        names
    }

    /// The metrics of the host at time `now`.
    ///
    /// While the cache is fresh, its metrics are handed out and nothing
    /// changes. Else the inputs are read: the connections are replaced, the
    /// bandwidth monitor takes a round of readings, and the new metrics go
    /// into the cache.
    pub fn get_metrics(&mut self, now: u64, inputs: &NetworkInputs) -> (metrics: NetworkMetrics)
        ensures
            old(self).bandwidth().in_order() ==> final(self).bandwidth().in_order(),
            old(self).cache_is_fresh(now) ==> *final(self) == *old(self) && Some(metrics@) == old(
                self,
            ).cached(),
            !old(self).cache_is_fresh(now) ==> {
                &&& final(self).connections() == inputs.connections()
                &&& final(self).bandwidth() == old(self).bandwidth().after_round(
                    inputs.interfaces(),
                    now,
                )
                &&& final(self).per_process() == old(self).per_process()
                &&& metrics@ == metrics_of(
                    inputs.connections(),
                    final(self).bandwidth().stats,
                    inputs.interfaces(),
                )
                &&& final(self).cached() == Some(metrics@)
                &&& final(self).updated_at() == now
                &&& final(self).cache_duration() == old(self).cache_duration()
            },
    {
        if !self.needs_inputs(now) {
            match &self.cached_metrics {
                Some(m) => {
                    return m.clone();
                },
                None => {},
            }
        }
        let connections = self.connection_tracker.get_connections(
            borrow_text(&inputs.connection_table),
            borrow_text(&inputs.open_files),
        );
        let interfaces = BandwidthMonitor::get_interface_stats(
            borrow_text(&inputs.interface_configuration),
            borrow_text(&inputs.interface_statistics),
        );
        let bandwidth = self.bandwidth_monitor.get_current_bandwidth(&interfaces, now);
        let (total_sent, total_received, packets_sent, packets_received) = Self::calculate_totals(
            &interfaces,
        );
        let metrics = NetworkMetrics {
            connections,
            bandwidth,
            total_bytes_sent: total_sent,
            total_bytes_received: total_received,
            packets_sent,
            packets_received,
            active_interfaces: Self::active_names(&interfaces),
        };
        self.cached_metrics = Some(metrics.clone());
        self.last_update = now;
        metrics
    }

    /// Reads the connections anew and hands out those of process `pid`.
    pub fn get_connections_for_process(&mut self, pid: u32, inputs: &NetworkInputs) -> (owned: Vec<
        NetworkConnection,
    >)
        ensures
            final(self).connections() == inputs.connections(),
            final(self).bandwidth() == old(self).bandwidth(),
            final(self).per_process() == old(self).per_process(),
            final(self).cached() == old(self).cached(),
            final(self).updated_at() == old(self).updated_at(),
            connection_views(owned@) == owned_in(
                inputs.connections(),
                pid,
                inputs.connections().len() as int,
            ),
    {
        self.connection_tracker.get_connections_for_pid(
            pid,
            borrow_text(&inputs.connection_table),
            borrow_text(&inputs.open_files),
        )
    }

    /// The traffic that is put down to process `pid`, sent and received.
    pub fn get_bandwidth_for_process(&mut self, pid: u32) -> (traffic: Option<(u64, u64)>)
        ensures
            *final(self) == *old(self),
            traffic == traffic_of(old(self).per_process(), pid),
    {
        self.bandwidth_monitor.get_process_bandwidth(pid)
    }

    /// Empties the cache, reads the connections anew and lets the bandwidth
    /// monitor take a round of readings.
    pub fn refresh(&mut self, now: u64, inputs: &NetworkInputs)
        ensures
            final(self).cached() is None,
            final(self).updated_at() == old(self).updated_at(),
            final(self).cache_duration() == old(self).cache_duration(),
            final(self).connections() == inputs.connections(),
            final(self).bandwidth() == old(self).bandwidth().after_round(
                inputs.interfaces(),
                now,
            ),
            final(self).per_process() == old(self).per_process(),
    {
        self.cached_metrics = None;
        self.connection_tracker.refresh(
            borrow_text(&inputs.connection_table),
            borrow_text(&inputs.open_files),
        );
        let interfaces = BandwidthMonitor::get_interface_stats(
            borrow_text(&inputs.interface_configuration),
            borrow_text(&inputs.interface_statistics),
        );
        self.bandwidth_monitor.refresh(&interfaces, now);
    }
}

} // verus!
