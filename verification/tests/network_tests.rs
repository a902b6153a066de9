use reaper_core::bandwidth::{
    add_capped, rate_of, BandwidthMonitor, BandwidthStats, InterfaceStats,
};
use reaper_core::connections::{
    parse_endpoint, parse_port, parse_state, tcp_connection_from, udp_connection_from,
    ConnectionState, ConnectionTracker, Endpoint, Protocol,
};
use reaper_core::network::{NetworkInputs, NetworkMonitor};

const NETSTAT: &str = "Active Internet connections (including servers)\n\
Proto Recv-Q Send-Q  Local Address          Foreign Address        (state)\n\
tcp4       0      0  127.0.0.1.6942         127.0.0.1.52389        ESTABLISHED\n\
tcp6       0      0  ::1.8080               *.*                    LISTEN\n\
tcp46      0      0  *.443                  *.*                    LISTEN\n\
tcp4       0      0  10.0.0.2.54321         93.184.216.34.443      time_wait\n\
udp4       0      0  10.0.0.2.5353          *.*\n\
udp6       0      0  ::1.123                ::1.99999\n";

const LSOF: &str = "COMMAND PID USER FD TYPE DEVICE SIZE/OFF NODE NAME\n\
firefox 12345 user 45u IPv4 0x1234567890abcdef 0t0 TCP 10.0.0.2:54321->93.184.216.34:443\n\
chrome 222 user 45u IPv4 0x1234567890abcdef 0t0 TCP 127.0.0.1:6942->127.0.0.1:52389 (ESTABLISHED)\n\
bad pid root 4u IPv6 0x1 0t0 TCP *:8080\n\
server 77 root 4u IPv6 0x1 0t0 TCP *:8080\n\
late 78 root 4u IPv6 0x1 0t0 TCP *:8080\n\
mdns 300 root 4u IPv4 0x1 0t0 UDP *:5353\n";

fn groups(texts: &[Option<&str>]) -> Vec<Option<String>> {
    texts.iter().map(|t| t.map(|s| s.to_string())).collect()
}

fn chars(s: &str) -> Vec<char> {
    s.chars().collect()
}

#[test]
fn test_connection_state_names() {
    assert_eq!(parse_state("ESTABLISHED"), ConnectionState::Established);
    assert_eq!(parse_state("listen"), ConnectionState::Listen);
    assert_eq!(parse_state("Syn_Sent"), ConnectionState::SynSent);
    assert_eq!(parse_state("SYN_RCVD"), ConnectionState::SynReceived);
    assert_eq!(parse_state("SYN_RECEIVED"), ConnectionState::SynReceived);
    assert_eq!(parse_state("FIN_WAIT_1"), ConnectionState::FinWait1);
    assert_eq!(parse_state("fin_wait1"), ConnectionState::FinWait1);
    assert_eq!(parse_state("FIN_WAIT_2"), ConnectionState::FinWait2);
    assert_eq!(parse_state("FIN_WAIT2"), ConnectionState::FinWait2);
    assert_eq!(parse_state("TIME_WAIT"), ConnectionState::TimeWait);
    assert_eq!(parse_state("CLOSE_WAIT"), ConnectionState::CloseWait);
    assert_eq!(parse_state("LAST_ACK"), ConnectionState::LastAck);
    assert_eq!(parse_state("CLOSING"), ConnectionState::Closing);
    assert_eq!(parse_state("CLOSED"), ConnectionState::Closed);
    assert_eq!(parse_state("bogus"), ConnectionState::Unknown);
    assert_eq!(parse_state(""), ConnectionState::Unknown);
}

#[test]
fn test_display_names() {
    assert_eq!(Protocol::TCP.display_name(), "TCP");
    assert_eq!(Protocol::UDP6.display_name(), "UDP6");
    assert_eq!(Protocol::Other("sctp".to_string()).display_name(), "sctp");
    assert_eq!(ConnectionState::SynSent.display_name(), "SYN Sent");
    assert_eq!(ConnectionState::LastAck.display_name(), "Last ACK");
    assert_eq!(ConnectionState::Established.color(), "green");
    assert_eq!(ConnectionState::Listen.color(), "blue");
    assert_eq!(ConnectionState::SynReceived.color(), "yellow");
    assert_eq!(ConnectionState::CloseWait.color(), "orange");
    assert_eq!(ConnectionState::FinWait2.color(), "gray");
    assert_eq!(ConnectionState::Closing.color(), "secondary");
    assert_eq!(ConnectionState::Unknown.color(), "secondary");
}

#[test]
fn test_connection_from_capture_groups() {
    let g = groups(&[
        Some("whole"),
        Some("tcp4"),
        Some("127.0.0.1"),
        Some("6942"),
        Some("10.1.1.1"),
        Some("*"),
        Some("listen"),
    ]);
    let c = tcp_connection_from(&g).expect("connection");
    assert!(matches!(c.protocol, Protocol::TCP));
    assert_eq!(c.local_address, "127.0.0.1");
    assert_eq!(c.local_port, 6942);
    assert_eq!(c.remote_address, "10.1.1.1");
    assert_eq!(c.remote_port, 0);
    assert_eq!(c.state, ConnectionState::Listen);
    assert_eq!(c.pid, None);
    assert_eq!(c.process_name, "");
    assert_eq!(c.bytes_sent, 0);

    let mut other = g.clone();
    other[1] = Some("tcp46".to_string());
    assert!(tcp_connection_from(&other).is_none());
    other[1] = Some("tcp6".to_string());
    other[3] = Some("70000".to_string());
    other[5] = Some("x".to_string());
    let c = tcp_connection_from(&other).expect("connection");
    assert!(matches!(c.protocol, Protocol::TCP6));
    assert_eq!(c.local_port, 0);
    assert_eq!(c.remote_port, 0);
    other[4] = None;
    assert!(tcp_connection_from(&other).is_none());
    assert!(tcp_connection_from(&g[..6].to_vec()).is_none());
    assert!(tcp_connection_from(&vec![]).is_none());

    let u = groups(&[Some("w"), Some("udp"), Some("::1"), Some("53"), Some("*"), Some("9")]);
    let c = udp_connection_from(&u).expect("connection");
    assert!(matches!(c.protocol, Protocol::UDP));
    assert_eq!(c.state, ConnectionState::Established);
    assert_eq!(c.remote_address, "*");
    assert_eq!(c.remote_port, 9);
    assert!(udp_connection_from(&g).is_none());
}

#[test]
fn test_endpoints() {
    assert!(matches!(
        parse_endpoint(&chars("10.0.0.2:54321->93.184.216.34:443")),
        Endpoint::Pair(54321, 443)
    ));
    assert!(matches!(parse_endpoint(&chars("a:1->b:2(ESTABLISHED)")), Endpoint::Pair(1, 2)));
    assert!(matches!(parse_endpoint(&chars("a:1->b:x")), Endpoint::Pair(1, 0)));
    assert!(matches!(parse_endpoint(&chars("a->b:2")), Endpoint::Nothing));
    assert!(matches!(parse_endpoint(&chars("a:1->b")), Endpoint::Nothing));
    assert!(matches!(parse_endpoint(&chars("*:8080")), Endpoint::Listening(8080)));
    assert!(matches!(parse_endpoint(&chars("[::1]:99999")), Endpoint::Listening(0)));
    assert!(matches!(parse_endpoint(&chars("(LISTEN)")), Endpoint::Nothing));
    assert_eq!(parse_port(&chars("80")), 80);
    assert_eq!(parse_port(&chars("")), 0);
}

#[test]
fn test_connection_table() {
    let mut tracker = ConnectionTracker::new();
    let all = tracker.get_connections(Some(NETSTAT), None);
    let seen: Vec<(String, u16, String, u16, ConnectionState)> = all
        .iter()
        .map(|c| {
            (
                format!("{}/{}", c.protocol.display_name(), c.local_address),
                c.local_port,
                c.remote_address.clone(),
                c.remote_port,
                c.state,
            )
        })
        .collect();
    assert_eq!(
        seen,
        vec![
            ("TCP/127.0.0.1".to_string(), 6942, "127.0.0.1".to_string(), 52389, ConnectionState::Established),
            ("TCP6/::1".to_string(), 8080, "*".to_string(), 0, ConnectionState::Listen),
            ("TCP/10.0.0.2".to_string(), 54321, "93.184.216.34".to_string(), 443, ConnectionState::TimeWait),
            ("UDP/10.0.0.2".to_string(), 5353, "*".to_string(), 0, ConnectionState::Established),
            ("UDP6/::1".to_string(), 123, "::1".to_string(), 0, ConnectionState::Established),
        ]
    );
    assert!(all.iter().all(|c| c.pid.is_none()));
}

#[test]
fn test_owners_are_matched() {
    let mut tracker = ConnectionTracker::new();
    let all = tracker.get_connections(Some(NETSTAT), Some(LSOF));
    let owners: Vec<(u16, Option<u32>, &str)> =
        all.iter().map(|c| (c.local_port, c.pid, c.process_name.as_str())).collect();
    assert_eq!(
        owners,
        vec![
            // The line of process 222 ends in its state, which names no endpoint.
            (6942, None, ""),
            // The later line for the same port wins: it finds the same connection.
            (8080, Some(78), "late"),
            (54321, Some(12345), "firefox"),
            (5353, None, ""),
            (123, None, ""),
        ]
    );
    let owned = tracker.get_connections_for_pid(78, Some(NETSTAT), Some(LSOF));
    assert_eq!(owned.len(), 1);
    assert_eq!(owned[0].local_port, 8080);
    assert!(tracker.get_connections_for_pid(77, Some(NETSTAT), Some(LSOF)).is_empty());
    assert!(tracker.get_connections_for_pid(1, Some(NETSTAT), Some(LSOF)).is_empty());
    // A refresh without table forgets everything.
    assert!(tracker.get_connections(None, Some(LSOF)).is_empty());
}

#[test]
fn test_match_connection_updates_first_match_only() {
    let mut tracker = ConnectionTracker::new();
    tracker.parse_netstat("tcp4 0 0 1.1.1.1.80 2.2.2.2.90 ESTABLISHED\ntcp4 0 0 3.3.3.3.80 4.4.4.4.90 ESTABLISHED\n");
    tracker.match_connection_with_process(5, "p".to_string(), "x:80->y:90");
    tracker.match_connection_with_process(6, "q".to_string(), "x:81->y:90");
    let all = tracker.get_connections_for_pid(5, None, None);
    assert!(all.is_empty());
}

#[test]
fn test_interface_configuration() {
    let out = "lo0: flags=8049<UP,LOOPBACK,RUNNING,MULTICAST> mtu 16384\n\
               \toptions=1203<RXCSUM,TXCSUM>\n\
               \tinet 127.0.0.1 netmask 0xff000000\n\
               en0: flags=8863<UP,BROADCAST,SMART> mtu 1500\n\
               \x20ether aa:bb\n\
               no colon here\n\
               en1: flags=8863<RUNNING> mtu 1500\n";
    let interfaces = BandwidthMonitor::parse_ifconfig(out);
    let seen: Vec<(&str, bool)> =
        interfaces.iter().map(|i| (i.name.as_str(), i.is_active)).collect();
    assert_eq!(seen, vec![("lo0", true), ("en0", false), ("en1", false)]);
    assert!(interfaces.iter().all(|i| i.bytes_sent == 0 && i.packets_received == 0));
    assert!(BandwidthMonitor::parse_ifconfig("").is_empty());
}

#[test]
fn test_interface_statistics() {
    let out = "Name Mtu Network Address Ipkts Ierrs Ibytes Opkts Oerrs Obytes Coll\n\
               en0 1500 <Link#4> aa:bb 100 1 5000 80 2 4000 0\n\
               lo0 16384 <Link#1> - 0 0 0 0 0 0 0\n\
               utun0 1380 <Link#9> 7 x 9\n\
               en1 1500 <Link#5> cc:dd n/a 0 0 7 0 12 0 extra\n";
    let interfaces = BandwidthMonitor::parse_netstat_interfaces(out);
    assert_eq!(interfaces.len(), 3);
    let en0 = &interfaces[0];
    assert_eq!(en0.name, "en0");
    assert!(en0.is_active);
    assert_eq!(en0.packets_received, 100);
    assert_eq!(en0.errors_in, 1);
    assert_eq!(en0.bytes_received, 5000);
    assert_eq!(en0.packets_sent, 80);
    assert_eq!(en0.errors_out, 2);
    assert_eq!(en0.bytes_sent, 4000);
    assert_eq!(en0.drops_in, 0);
    assert!(!interfaces[1].is_active);
    assert_eq!(interfaces[2].name, "en1");
    assert_eq!(interfaces[2].packets_received, 0);
    assert_eq!(interfaces[2].bytes_sent, 12);
    assert!(interfaces[2].is_active);

    // The statistics are read only if the configuration names no interface.
    let both = BandwidthMonitor::get_interface_stats(Some("en9: flags<UP,RUNNING>\n"), Some(out));
    assert_eq!(both.len(), 1);
    assert_eq!(both[0].name, "en9");
    assert_eq!(BandwidthMonitor::get_interface_stats(Some("nothing\n"), Some(out)).len(), 3);
    assert_eq!(BandwidthMonitor::get_interface_stats(None, Some(out)).len(), 3);
    assert!(BandwidthMonitor::get_interface_stats(None, None).is_empty());
}

fn interface(name: &str, active: bool, sent: u64, received: u64) -> InterfaceStats {
    InterfaceStats {
        name: name.to_string(),
        is_active: active,
        bytes_sent: sent,
        bytes_received: received,
        packets_sent: 1,
        packets_received: 2,
        errors_in: 0,
        errors_out: 0,
        drops_in: 0,
        drops_out: 0,
    }
}

#[test]
fn test_rates() {
    assert_eq!(rate_of(1000, 3000, 2000), 1000);
    assert_eq!(rate_of(1000, 3000, 0), 0);
    assert_eq!(rate_of(3000, 1000, 1000), 0);
    assert_eq!(rate_of(0, 1, 3), 333);
    assert_eq!(rate_of(0, u64::MAX, 1), u64::MAX);
    assert_eq!(add_capped(1, 2), 3);
    assert_eq!(add_capped(u64::MAX, 1), u64::MAX);
    assert_eq!(add_capped(u64::MAX - 1, 1), u64::MAX);
}

#[test]
fn test_bandwidth_rounds() {
    let mut monitor = BandwidthMonitor::new();
    assert_eq!(monitor.get_process_bandwidth(1), None);
    let first = monitor.get_current_bandwidth(
        &vec![interface("en0", true, 1000, 5000), interface("en1", false, 1, 1)],
        1000,
    );
    assert_eq!(first, BandwidthStats::default());

    // Two seconds later: 4000 bytes sent, 10000 received on en0; en1 does not count.
    let second = monitor.get_current_bandwidth(
        &vec![interface("en0", true, 5000, 15000), interface("en1", false, 9999, 9999)],
        3000,
    );
    assert_eq!(second.current_upload_bps, 2000);
    assert_eq!(second.current_download_bps, 5000);
    assert_eq!(second.peak_upload_bps, 2000);
    assert_eq!(second.peak_download_bps, 5000);
    assert_eq!(second.average_upload_bps, 1000);
    assert_eq!(second.average_download_bps, 2500);

    // A quieter round keeps the peaks.
    let third = monitor.get_current_bandwidth(
        &vec![interface("en0", true, 5500, 15000), interface("en2", true, 7, 7)],
        4000,
    );
    assert_eq!(third.current_upload_bps, 500);
    assert_eq!(third.current_download_bps, 0);
    assert_eq!(third.peak_upload_bps, 2000);
    assert_eq!(third.peak_download_bps, 5000);
    assert_eq!(third.average_upload_bps, 833);
    assert_eq!(third.average_download_bps, 1666);

    // en2 has a snapshot now.
    let fourth = monitor.get_current_bandwidth(&vec![interface("en2", true, 1007, 7)], 4500);
    assert_eq!(fourth.current_upload_bps, 2000);
    monitor.parse_nettop("anything");
    assert_eq!(monitor.get_process_bandwidth(1), None);
}

#[test]
fn test_network_monitor_cache() {
    let inputs = NetworkInputs {
        connection_table: Some(NETSTAT.to_string()),
        open_files: Some(LSOF.to_string()),
        interface_configuration: None,
        interface_statistics: Some(
            "Name Mtu Network Address Ipkts Ierrs Ibytes Opkts Oerrs Obytes Coll\n\
             en0 1500 <Link#4> aa:bb 100 1 5000 80 2 4000 0\n\
             en1 1500 <Link#5> aa:bc 10 0 500 8 0 400 0\n\
             lo0 16384 <Link#1> - 0 0 0 0 0 0 0\n"
                .to_string(),
        ),
    };
    let mut monitor = NetworkMonitor::new(0);
    assert!(monitor.needs_inputs(0));
    let metrics = monitor.get_metrics(100, &inputs);
    assert_eq!(metrics.connections.len(), 5);
    assert_eq!(metrics.total_bytes_sent, 4400);
    assert_eq!(metrics.total_bytes_received, 5500);
    assert_eq!(metrics.packets_sent, 88);
    assert_eq!(metrics.packets_received, 110);
    assert_eq!(metrics.active_interfaces, vec!["en0".to_string(), "en1".to_string()]);
    assert_eq!(metrics.bandwidth.current_upload_bps, 0);

    // Within a second and a half the cache answers, whatever the inputs say.
    let empty = NetworkInputs {
        connection_table: None,
        open_files: None,
        interface_configuration: None,
        interface_statistics: None,
    };
    assert!(!monitor.needs_inputs(1599));
    let cached = monitor.get_metrics(1599, &empty);
    assert_eq!(cached.connections.len(), 5);
    assert_eq!(cached.total_bytes_sent, 4400);
    assert!(monitor.needs_inputs(1600));
    let fresh = monitor.get_metrics(1600, &empty);
    assert!(fresh.connections.is_empty());
    assert_eq!(fresh.total_bytes_sent, 0);
    assert!(fresh.active_interfaces.is_empty());

    assert_eq!(monitor.get_connections_for_process(78, &inputs).len(), 1);
    assert_eq!(monitor.get_bandwidth_for_process(77), None);
    monitor.refresh(5000, &inputs);
    assert!(monitor.needs_inputs(5000));
    let totals = NetworkMonitor::calculate_totals(&vec![
        interface("a", true, u64::MAX, 1),
        interface("b", false, 5, 2),
    ]);
    assert_eq!(totals, (u64::MAX, 3, 2, 4));
}
