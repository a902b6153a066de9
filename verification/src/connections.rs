//! Network connections: reading the host's connection table and finding the
//! process behind each connection.
//!
//! Lines of the connection table are taken apart with regular expressions.
//! What the expressions capture is turned into connections here.

use crate::numeric::{bounded_value, parse_u16, parse_u32};
use crate::platform::str_of;
use crate::split::{fields, lines, rows, split_fields, split_lines};
use crate::text::{
    chars_of, find, find_first, find_last, lemma_find_from, lemma_rfind_upto, rfind, same_chars,
    slice_of, string_from_chars,
};
use std::collections::HashMap;
use vstd::prelude::*;

verus! {

broadcast use vstd::std_specs::hash::group_hash_axioms;

/// The transport protocol of a connection.
#[derive(Debug)]
pub enum Protocol {
    TCP,
    UDP,
    TCP6,
    UDP6,
    Other(String),
}

/// The state of a connection.
#[derive(Debug, Clone, Copy, PartialEq, Eq, Structural)]
pub enum ConnectionState {
    Established,
    Listen,
    SynSent,
    SynReceived,
    FinWait1,
    FinWait2,
    TimeWait,
    CloseWait,
    LastAck,
    Closing,
    Closed,
    Unknown,
}

/// One connection of the host.
#[derive(Debug)]
pub struct NetworkConnection {
    pub pid: Option<u32>,
    pub process_name: String,
    pub local_address: String,
    pub local_port: u16,
    pub remote_address: String,
    pub remote_port: u16,
    pub protocol: Protocol,
    pub state: ConnectionState,
    pub bytes_sent: u64,
    pub bytes_received: u64,
}

/// A protocol as a plain value.
pub enum ProtocolView {
    TCP,
    UDP,
    TCP6,
    UDP6,
    Other(Seq<char>),
}

/// A connection as a plain value.
pub struct ConnectionView {
    pub pid: Option<u32>,
    pub process_name: Seq<char>,
    pub local_address: Seq<char>,
    pub local_port: u16,
    pub remote_address: Seq<char>,
    pub remote_port: u16,
    pub protocol: ProtocolView,
    pub state: ConnectionState,
    pub bytes_sent: u64,
    pub bytes_received: u64,
}

impl View for Protocol {
    type V = ProtocolView;

    open spec fn view(&self) -> ProtocolView {
        match self {
            Protocol::TCP => ProtocolView::TCP,
            Protocol::UDP => ProtocolView::UDP,
            Protocol::TCP6 => ProtocolView::TCP6,
            Protocol::UDP6 => ProtocolView::UDP6,
            Protocol::Other(name) => ProtocolView::Other(name@),
        }
    }
}

impl View for NetworkConnection {
    type V = ConnectionView;

    open spec fn view(&self) -> ConnectionView {
        ConnectionView {
            pid: self.pid,
            process_name: self.process_name@,
            local_address: self.local_address@,
            local_port: self.local_port,
            remote_address: self.remote_address@,
            remote_port: self.remote_port,
            protocol: self.protocol@,
            state: self.state,
            bytes_sent: self.bytes_sent,
            bytes_received: self.bytes_received,
        }
    }
}

impl Clone for Protocol {
    fn clone(&self) -> (r: Self)
        ensures
            r@ == self@,
    {
        match self {
            Protocol::TCP => Protocol::TCP,
            Protocol::UDP => Protocol::UDP,
            Protocol::TCP6 => Protocol::TCP6,
            Protocol::UDP6 => Protocol::UDP6,
            Protocol::Other(name) => Protocol::Other(name.clone()),
        }
    }
}

impl Clone for NetworkConnection {
    fn clone(&self) -> (r: Self)
        ensures
            r@ == self@,
    {
        NetworkConnection {
            pid: self.pid,
            process_name: self.process_name.clone(),
            local_address: self.local_address.clone(),
            local_port: self.local_port,
            remote_address: self.remote_address.clone(),
            remote_port: self.remote_port,
            protocol: self.protocol.clone(),
            state: self.state,
            bytes_sent: self.bytes_sent,
            bytes_received: self.bytes_received,
        }
    }
}

/// The views of a run of connections.
pub open spec fn connection_views(connections: Seq<NetworkConnection>) -> Seq<ConnectionView> {
    connections.map_values(|c: NetworkConnection| c@)
}

impl Protocol {
    /// The name of the protocol.
    pub open spec fn name(&self) -> Seq<char> {
        match self {
            Protocol::TCP => "TCP"@,
            Protocol::UDP => "UDP"@,
            Protocol::TCP6 => "TCP6"@,
            Protocol::UDP6 => "UDP6"@,
            Protocol::Other(name) => name@,
        }
    }

    /// The name of the protocol.
    pub fn display_name(&self) -> (s: &str)
        ensures
            s@ == self.name(),
    {
        match self {
            Protocol::TCP => "TCP",
            Protocol::UDP => "UDP",
            Protocol::TCP6 => "TCP6",
            Protocol::UDP6 => "UDP6",
            Protocol::Other(name) => name.as_str(),
        }
    }
}

impl ConnectionState {
    /// The name of the state.
    pub open spec fn name(&self) -> Seq<char> {
        match self {
            ConnectionState::Established => "Established"@,
            ConnectionState::Listen => "Listen"@,
            ConnectionState::SynSent => "SYN Sent"@,
            ConnectionState::SynReceived => "SYN Received"@,
            ConnectionState::FinWait1 => "FIN Wait 1"@,
            ConnectionState::FinWait2 => "FIN Wait 2"@,
            ConnectionState::TimeWait => "Time Wait"@,
            ConnectionState::CloseWait => "Close Wait"@,
            ConnectionState::LastAck => "Last ACK"@,
            ConnectionState::Closing => "Closing"@,
            ConnectionState::Closed => "Closed"@,
            ConnectionState::Unknown => "Unknown"@,
        }
    }

    /// The colour in which the state is shown.
    pub open spec fn colour(&self) -> Seq<char> {
        match self {
            ConnectionState::Established => "green"@,
            ConnectionState::Listen => "blue"@,
            ConnectionState::SynSent | ConnectionState::SynReceived => "yellow"@,
            ConnectionState::TimeWait | ConnectionState::CloseWait => "orange"@,
            ConnectionState::Closed | ConnectionState::LastAck | ConnectionState::FinWait1
            | ConnectionState::FinWait2 => "gray"@,
            _ => "secondary"@,
        }
    }

    /// The name of the state.
    pub fn display_name(&self) -> (s: &'static str)
        ensures
            s@ == self.name(),
    {
        match self {
            ConnectionState::Established => "Established",
            ConnectionState::Listen => "Listen",
            ConnectionState::SynSent => "SYN Sent",
            ConnectionState::SynReceived => "SYN Received",
            ConnectionState::FinWait1 => "FIN Wait 1",
            ConnectionState::FinWait2 => "FIN Wait 2",
            ConnectionState::TimeWait => "Time Wait",
            ConnectionState::CloseWait => "Close Wait",
            ConnectionState::LastAck => "Last ACK",
            ConnectionState::Closing => "Closing",
            ConnectionState::Closed => "Closed",
            ConnectionState::Unknown => "Unknown",
        }
    }

    /// The colour in which the state is shown.
    pub fn color(&self) -> (s: &'static str)
        ensures
            s@ == self.colour(),
    {
        match self {
            ConnectionState::Established => "green",
            ConnectionState::Listen => "blue",
            ConnectionState::SynSent | ConnectionState::SynReceived => "yellow",
            ConnectionState::TimeWait | ConnectionState::CloseWait => "orange",
            ConnectionState::Closed | ConnectionState::LastAck | ConnectionState::FinWait1
            | ConnectionState::FinWait2 => "gray",
            _ => "secondary",
        }
    }
}

/// What `regex::Regex::new(pattern)` and then `Regex::captures(line)` give:
/// for a match, the text of every capture group, the whole match first, and
/// `None` for a group that took no part in it. `None` where there is no
/// match or the pattern is not a regular expression.
pub uninterp spec fn captures_of(pattern: Seq<char>, line: Seq<char>) -> Option<
    Seq<Option<Seq<char>>>,
>;

/// What `str::to_uppercase` makes of a text.
pub uninterp spec fn uppercase_of(text: Seq<char>) -> Seq<char>;

/// The texts of a run of capture groups.
pub open spec fn group_texts(groups: Seq<Option<String>>) -> Seq<Option<Seq<char>>> {
    groups.map_values(|g: Option<String>| crate::platform::text_of(g))
}

/// Compiles `pattern` with `regex::Regex::new` and searches `line` with
/// `Regex::captures`. The contract claims that the outcome depends on the
/// two texts alone: it is the one that `captures_of` names. Each capture
/// group is handed out as the text it matched.
#[verifier::external_body]
pub(crate) fn regex_captures(pattern: &str, line: &str) -> (groups: Option<Vec<Option<String>>>)
    ensures
        match groups {
            Some(found) => captures_of(pattern@, line@) == Some(group_texts(found@)),
            None => captures_of(pattern@, line@) is None,
        },
{
    match regex::Regex::new(pattern) {
        Ok(re) => match re.captures(line) {
            Some(caps) => Some(caps.iter().map(|m| m.map(|g| g.as_str().to_string())).collect()),
            None => None,
        },
        Err(_) => None,
    }
}

/// Turns a text into upper case with `str::to_uppercase`. The contract
/// claims that the outcome depends on the text alone.
#[verifier::external_body]
pub(crate) fn uppercase(text: &str) -> (upper: String)
    ensures
        upper@ == uppercase_of(text@),
{
    text.to_uppercase()
}

/// The pattern of a TCP line of the connection table: protocol, two
/// counters, local address and port, remote address and port, state.
pub open spec fn tcp_pattern() -> Seq<char> {
    "(tcp[46]?)\\s+\\d+\\s+\\d+\\s+([\\d\\.\\:]+)\\.(\\d+)\\s+([\\d\\.\\:]+|\\*)\\.(\\d+|\\*)\\s+(\\w+)"@
}

/// The pattern of a UDP line of the connection table; it has no state.
pub open spec fn udp_pattern() -> Seq<char> {
    "(udp[46]?)\\s+\\d+\\s+\\d+\\s+([\\d\\.\\:]+)\\.(\\d+)\\s+([\\d\\.\\:]+|\\*)\\.(\\d+|\\*)"@
}

/// The state that a name in upper case stands for.
pub open spec fn state_of_upper(upper: Seq<char>) -> ConnectionState {
    if upper == "ESTABLISHED"@ {
        ConnectionState::Established
    } else if upper == "LISTEN"@ {
        ConnectionState::Listen
    } else if upper == "SYN_SENT"@ {
        ConnectionState::SynSent
    } else if upper == "SYN_RECEIVED"@ || upper == "SYN_RCVD"@ {
        ConnectionState::SynReceived
    } else if upper == "FIN_WAIT_1"@ || upper == "FIN_WAIT1"@ {
        ConnectionState::FinWait1
    } else if upper == "FIN_WAIT_2"@ || upper == "FIN_WAIT2"@ {
        ConnectionState::FinWait2
    } else if upper == "TIME_WAIT"@ {
        ConnectionState::TimeWait
    } else if upper == "CLOSE_WAIT"@ {
        ConnectionState::CloseWait
    } else if upper == "LAST_ACK"@ {
        ConnectionState::LastAck
    } else if upper == "CLOSING"@ {
        ConnectionState::Closing
    } else if upper == "CLOSED"@ {
        ConnectionState::Closed
    } else {
        ConnectionState::Unknown
    }
}

/// The state that a name stands for, whatever its case.
pub open spec fn state_named(name: Seq<char>) -> ConnectionState {
    state_of_upper(uppercase_of(name))
}

/// The state that a name in upper case stands for.
pub fn state_from_upper(upper: &Vec<char>) -> (state: ConnectionState)
    ensures
        state == state_of_upper(upper@),
{
    if same_chars(upper, &chars_of("ESTABLISHED")) {
        ConnectionState::Established
    } else if same_chars(upper, &chars_of("LISTEN")) {
        ConnectionState::Listen
    } else if same_chars(upper, &chars_of("SYN_SENT")) {
        ConnectionState::SynSent
    } else if same_chars(upper, &chars_of("SYN_RECEIVED")) || same_chars(
        upper,
        &chars_of("SYN_RCVD"),
    ) {
        ConnectionState::SynReceived
    } else if same_chars(upper, &chars_of("FIN_WAIT_1")) || same_chars(
        upper,
        &chars_of("FIN_WAIT1"),
    ) {
        ConnectionState::FinWait1
    } else if same_chars(upper, &chars_of("FIN_WAIT_2")) || same_chars(
        upper,
        &chars_of("FIN_WAIT2"),
    ) {
        ConnectionState::FinWait2
    } else if same_chars(upper, &chars_of("TIME_WAIT")) {
        ConnectionState::TimeWait
    } else if same_chars(upper, &chars_of("CLOSE_WAIT")) {
        ConnectionState::CloseWait
    } else if same_chars(upper, &chars_of("LAST_ACK")) {
        ConnectionState::LastAck
    } else if same_chars(upper, &chars_of("CLOSING")) {
        ConnectionState::Closing
    } else if same_chars(upper, &chars_of("CLOSED")) {
        ConnectionState::Closed
    } else {
        ConnectionState::Unknown
    }
}

/// The state that the connection table names, whatever its case; a name
/// that is not known stands for the unknown state.
pub fn parse_state(state_str: &str) -> (state: ConnectionState)
    ensures
        state == state_named(state_str@),
{
    let upper = uppercase(state_str);
    state_from_upper(&chars_of(upper.as_str()))
}

/// The port that a text writes, 0 where it writes none.
pub open spec fn port_of(text: Seq<char>) -> u16 {
    match bounded_value(text, 10, u16::MAX as nat) {
        Some(port) => port as u16,
        None => 0,
    }
}

/// The port that a capture group names: 0 for a star.
pub open spec fn remote_port_of(text: Seq<char>) -> u16 {
    if text == "*"@ {
        0
    } else {
        port_of(text)
    }
}

/// Reads a port, 0 where the text writes none.
pub fn parse_port(text: &Vec<char>) -> (port: u16)
    ensures
        port == port_of(text@),
{
    match parse_u16(text) {
        Some(port) => port,
        None => 0,
    }
}

/// The first `count` capture groups after the whole match all took part in
/// the match.
pub open spec fn has_groups(groups: Seq<Option<Seq<char>>>, count: int) -> bool {
    groups.len() > count && forall|i: int| 1 <= i <= count ==> (#[trigger] groups[i]) is Some
}

/// A connection that the connection table lists: it has no owner yet and
/// no traffic counted.
pub open spec fn listed(
    protocol: ProtocolView,
    groups: Seq<Option<Seq<char>>>,
    state: ConnectionState,
) -> ConnectionView {
    ConnectionView {
        pid: None,
        process_name: Seq::empty(),
        local_address: groups[2]->0,
        local_port: port_of(groups[3]->0),
        remote_address: groups[4]->0,
        remote_port: remote_port_of(groups[5]->0),
        protocol,
        state,
        bytes_sent: 0,
        bytes_received: 0,
    }
}

/// The connection that the capture groups of a TCP line stand for.
pub open spec fn tcp_connection(groups: Seq<Option<Seq<char>>>) -> Option<ConnectionView> {
    if !has_groups(groups, 6) {
        None
    } else if groups[1]->0 == "tcp"@ || groups[1]->0 == "tcp4"@ {
        Some(listed(ProtocolView::TCP, groups, state_named(groups[6]->0)))
    } else if groups[1]->0 == "tcp6"@ {
        Some(listed(ProtocolView::TCP6, groups, state_named(groups[6]->0)))
    } else {
        None
    }
}

/// The connection that the capture groups of a UDP line stand for. UDP has
/// no states: the connection counts as established.
pub open spec fn udp_connection(groups: Seq<Option<Seq<char>>>) -> Option<ConnectionView> {
    if !has_groups(groups, 5) {
        None
    } else if groups[1]->0 == "udp"@ || groups[1]->0 == "udp4"@ {
        Some(listed(ProtocolView::UDP, groups, ConnectionState::Established))
    } else if groups[1]->0 == "udp6"@ {
        Some(listed(ProtocolView::UDP6, groups, ConnectionState::Established))
    } else {
        None
    }
}

/// Whether the first `count` capture groups after the whole match all took
/// part in the match.
fn groups_present(groups: &Vec<Option<String>>, count: usize) -> (r: bool)
    requires
        count < usize::MAX,
    ensures
        r == has_groups(group_texts(groups@), count as int),
{
    if groups.len() <= count {
        return false;
    }
    let mut i: usize = 1;
    while i <= count
        invariant
            1 <= i <= count + 1,
            count < groups@.len() == groups.len(),
            forall|j: int| 1 <= j < i ==> (#[trigger] group_texts(groups@)[j]) is Some,
        decreases count + 1 - i,
    {
        assert(group_texts(groups@)[i as int] == crate::platform::text_of(groups@[i as int]));
        if groups[i].is_none() {
            return false;
        }
        i = i + 1;
    }
    true
}

/// The text of a capture group that took part in the match.
fn group_text(groups: &Vec<Option<String>>, i: usize) -> (text: Vec<char>)
    requires
        i < groups@.len(),
        groups@[i as int] is Some,
    ensures
        Some(text@) == group_texts(groups@)[i as int],
{
    match &groups[i] {
        Some(s) => chars_of(s.as_str()),
        None => Vec::new(),
    }
}

/// Builds the connection that a line of the table lists.
fn listed_connection(groups: &Vec<Option<String>>, protocol: Protocol, state: ConnectionState) -> (c:
    NetworkConnection)
    requires
        has_groups(group_texts(groups@), 5),
    ensures
        c@ == listed(protocol@, group_texts(groups@), state),
{
    let remote = group_text(groups, 5);
    let remote_port = if same_chars(&remote, &chars_of("*")) {
        0
    } else {
        parse_port(&remote)
    };
    NetworkConnection {
        pid: None,
        process_name: String::new(),
        local_address: string_from_chars(&group_text(groups, 2)),
        local_port: parse_port(&group_text(groups, 3)),
        remote_address: string_from_chars(&group_text(groups, 4)),
        remote_port,
        protocol,
        state,
        bytes_sent: 0,
        bytes_received: 0,
    }
}

/// Turns the capture groups of a TCP line into a connection: the protocol
/// is group 1, the local address and port groups 2 and 3, the remote ones
/// groups 4 and 5, the state group 6. A port that is no number counts as 0.
pub fn tcp_connection_from(groups: &Vec<Option<String>>) -> (c: Option<NetworkConnection>)
    ensures
        c is Some <==> tcp_connection(group_texts(groups@)) is Some,
        c matches Some(found) ==> tcp_connection(group_texts(groups@)) == Some(found@),
{
    if !groups_present(groups, 6) {
        return None;
    }
    let name = group_text(groups, 1);
    let protocol = if same_chars(&name, &chars_of("tcp")) || same_chars(&name, &chars_of("tcp4")) {
        Protocol::TCP
    } else if same_chars(&name, &chars_of("tcp6")) {
        Protocol::TCP6
    } else {
        return None;
    };
    let state = match &groups[6] {
        Some(s) => parse_state(s.as_str()),
        None => ConnectionState::Unknown,
    };
    Some(listed_connection(groups, protocol, state))
}

/// Turns the capture groups of a UDP line into a connection.
pub fn udp_connection_from(groups: &Vec<Option<String>>) -> (c: Option<NetworkConnection>)
    ensures
        c is Some <==> udp_connection(group_texts(groups@)) is Some,
        c matches Some(found) ==> udp_connection(group_texts(groups@)) == Some(found@),
{
    if !groups_present(groups, 5) {
        return None;
    }
    let name = group_text(groups, 1);
    let protocol = if same_chars(&name, &chars_of("udp")) || same_chars(&name, &chars_of("udp4")) {
        Protocol::UDP
    } else if same_chars(&name, &chars_of("udp6")) {
        Protocol::UDP6
    } else {
        return None;
    };
    Some(listed_connection(groups, protocol, ConnectionState::Established))
}

/// The connection that a line of the table lists as TCP, if any.
pub open spec fn tcp_line(line: Seq<char>) -> Option<ConnectionView> {
    match captures_of(tcp_pattern(), line) {
        Some(groups) => tcp_connection(groups),
        None => None,
    }
}

/// The connection that a line of the table lists as UDP, if any.
pub open spec fn udp_line(line: Seq<char>) -> Option<ConnectionView> {
    match captures_of(udp_pattern(), line) {
        Some(groups) => udp_connection(groups),
        None => None,
    }
}

/// The TCP connections that the first `n` lines list, in their order.
pub open spec fn tcp_in(all: Seq<Seq<char>>, n: int) -> Seq<ConnectionView>
    decreases n,
{
    if n <= 0 || n > all.len() {
        Seq::empty()
    } else {
        match tcp_line(all[n - 1]) {
            Some(c) => tcp_in(all, n - 1).push(c),
            None => tcp_in(all, n - 1),
        }
    }
}

/// The UDP connections that the first `n` lines list, in their order.
pub open spec fn udp_in(all: Seq<Seq<char>>, n: int) -> Seq<ConnectionView>
    decreases n,
{
    if n <= 0 || n > all.len() {
        Seq::empty()
    } else {
        match udp_line(all[n - 1]) {
            Some(c) => udp_in(all, n - 1).push(c),
            None => udp_in(all, n - 1),
        }
    }
}

/// The connections that a connection table lists: first all TCP
/// connections, then all UDP connections.
pub open spec fn table_connections(table: Seq<char>) -> Seq<ConnectionView> {
    tcp_in(lines(table), lines(table).len() as int) + udp_in(
        lines(table),
        lines(table).len() as int,
    )
}

/// What is looked for when a line of the open-file listing is matched with
/// the connection table.
pub enum Endpoint {
    /// A connection with these local and remote ports.
    Pair(u16, u16),
    /// A listening socket on this port.
    Listening(u16),
    /// Nothing: the line names no endpoint.
    Nothing,
}

/// The text before the first `(` of `text`, or all of it.
pub open spec fn before_paren(text: Seq<char>) -> Seq<char> {
    match find(text, "("@) {
        Some(at) => text.subrange(0, at),
        None => text,
    }
}

/// The endpoint that the last field of a line of the open-file listing
/// names, such as `10.0.0.2:54321->93.184.216.34:443` or `*:8080`.
pub open spec fn endpoint_of(text: Seq<char>) -> Endpoint {
    match find(text, "->"@) {
        Some(arrow) => {
            let local = text.subrange(0, arrow);
            let remote = text.subrange(arrow + 2, text.len() as int);
            match (rfind(local, ":"@), rfind(remote, ":"@)) {
                (Some(a), Some(b)) => Endpoint::Pair(
                    port_of(local.subrange(a + 1, local.len() as int)),
                    port_of(before_paren(remote.subrange(b + 1, remote.len() as int))),
                ),
                _ => Endpoint::Nothing,
            }
        },
        None => match rfind(text, ":"@) {
            Some(a) => Endpoint::Listening(port_of(text.subrange(a + 1, text.len() as int))),
            None => Endpoint::Nothing,
        },
    }
}

/// The connection is the one that the endpoint names.
pub open spec fn is_endpoint(c: ConnectionView, endpoint: Endpoint) -> bool {
    match endpoint {
        Endpoint::Pair(local, remote) => c.local_port == local && c.remote_port == remote,
        Endpoint::Listening(port) => c.local_port == port && c.state == ConnectionState::Listen,
        Endpoint::Nothing => false,
    }
}

/// The first index below `n` of a connection that the endpoint names, or
/// `-1`.
pub open spec fn endpoint_index(connections: Seq<ConnectionView>, endpoint: Endpoint, n: int) -> int
    decreases n,
{
    if n <= 0 || n > connections.len() {
        -1
    } else if endpoint_index(connections, endpoint, n - 1) >= 0 {
        endpoint_index(connections, endpoint, n - 1)
    } else if is_endpoint(connections[n - 1], endpoint) {
        n - 1
    } else {
        -1
    }
}

/// The connections after process `pid`, named `name`, has been found behind
/// `endpoint`: the first connection that the endpoint names gets the
/// process as its owner.
pub open spec fn with_owner(
    connections: Seq<ConnectionView>,
    endpoint: Endpoint,
    pid: u32,
    name: Seq<char>,
) -> Seq<ConnectionView> {
    let i = endpoint_index(connections, endpoint, connections.len() as int);
    if i >= 0 {
        connections.update(
            i,
            ConnectionView { pid: Some(pid), process_name: name, ..connections[i] },
        )
    } else {
        connections
    }
}

/// A connection with the endpoint at `i`, with none before it, is what
/// every longer search finds.
proof fn lemma_endpoint_index(connections: Seq<ConnectionView>, endpoint: Endpoint, i: int, n: int)
    requires
        0 <= i < n <= connections.len(),
        endpoint_index(connections, endpoint, i) < 0,
        is_endpoint(connections[i], endpoint),
    ensures
        endpoint_index(connections, endpoint, n) == i,
    decreases n,
{
    if n > i + 1 {
        lemma_endpoint_index(connections, endpoint, i, n - 1);
    }
}

/// Reads the endpoint that the last field of a line of the open-file
/// listing names.
pub fn parse_endpoint(text: &Vec<char>) -> (endpoint: Endpoint)
    ensures
        endpoint == endpoint_of(text@),
{
    let colon = chars_of(":");
    let length = text.len();
    match find_first(text, &chars_of("->")) {
        Some(arrow) => {
            proof {
                reveal_strlit("->");
                lemma_find_from(text@, "->"@, 0);
            }
            let local = slice_of(text, 0, arrow);
            let remote = slice_of(text, arrow + 2, length);
            let a = match find_last(&local, &colon) {
                Some(a) => a,
                None => {
                    return Endpoint::Nothing;
                },
            };
            let b = match find_last(&remote, &colon) {
                Some(b) => b,
                None => {
                    return Endpoint::Nothing;
                },
            };
            proof {
                reveal_strlit(":");
                lemma_rfind_upto(local@, ":"@, local@.len() - ":"@.len());
                lemma_rfind_upto(remote@, ":"@, remote@.len() - ":"@.len());
            }
            let local_port = parse_port(&slice_of(&local, a + 1, local.len()));
            let tail = slice_of(&remote, b + 1, remote.len());
            let number = match find_first(&tail, &chars_of("(")) {
                Some(at) => {
                    proof {
                        reveal_strlit("(");
                        lemma_find_from(tail@, "("@, 0);
                    }
                    slice_of(&tail, 0, at)
                },
                None => tail,
            };
            Endpoint::Pair(local_port, parse_port(&number))
        },
        None => match find_last(text, &colon) {
            Some(a) => {
                proof {
                    reveal_strlit(":");
                    lemma_rfind_upto(text@, ":"@, text@.len() - ":"@.len());
                }
                Endpoint::Listening(parse_port(&slice_of(text, a + 1, length)))
            },
            None => Endpoint::Nothing,
        },
    }
}

/// Keeps the connections of the host and the names of their processes.
#[derive(Debug)]
pub struct ConnectionTracker {
    connections: Vec<NetworkConnection>,
    process_map: HashMap<u32, String>,
}

/// The process that a line of the open-file listing names, with the last
/// field of the line: the line has at least nine fields, the first is the
/// name and the second the id.
pub open spec fn owner_row(line: Seq<char>) -> Option<(u32, Seq<char>, Seq<char>)> {
    let row = fields(line);
    if row.len() >= 9 {
        match bounded_value(row[1], 10, u32::MAX as nat) {
            Some(pid) => Some((pid as u32, row[0], row.last())),
            None => None,
        }
    } else {
        None
    }
}

/// The connections after the lines `1..n` of the open-file listing have
/// been matched with them; line 0 is the header.
pub open spec fn owners_applied(
    connections: Seq<ConnectionView>,
    all: Seq<Seq<char>>,
    n: int,
) -> Seq<ConnectionView>
    decreases n,
{
    if n <= 1 || n > all.len() {
        connections
    } else {
        match owner_row(all[n - 1]) {
            Some((pid, name, last)) => with_owner(
                owners_applied(connections, all, n - 1),
                endpoint_of(last),
                pid,
                name,
            ),
            None => owners_applied(connections, all, n - 1),
        }
    }
}

/// The names of the processes after the lines `1..n` of the open-file
/// listing have been noted: each process has the name that the last of its
/// lines gives it.
pub open spec fn owners_noted(owners: Map<u32, Seq<char>>, all: Seq<Seq<char>>, n: int) -> Map<
    u32,
    Seq<char>,
>
    decreases n,
{
    if n <= 1 || n > all.len() {
        owners
    } else {
        match owner_row(all[n - 1]) {
            Some((pid, name, last)) => owners_noted(owners, all, n - 1).insert(pid, name),
            None => owners_noted(owners, all, n - 1),
        }
    }
}

/// The connections that the table and the open-file listing give together.
pub open spec fn refreshed_connections(table: Option<Seq<char>>, listing: Option<Seq<char>>) -> Seq<
    ConnectionView,
> {
    let listed = match table {
        Some(text) => table_connections(text),
        None => Seq::empty(),
    };
    match listing {
        Some(text) => owners_applied(listed, lines(text), lines(text).len() as int),
        None => listed,
    }
}

/// The names of the processes that the open-file listing gives.
pub open spec fn refreshed_owners(listing: Option<Seq<char>>) -> Map<u32, Seq<char>> {
    match listing {
        Some(text) => owners_noted(Map::empty(), lines(text), lines(text).len() as int),
        None => Map::empty(),
    }
}

/// The names of the processes, each as a character sequence.
pub open spec fn owner_views(owners: Map<u32, String>) -> Map<u32, Seq<char>> {
    Map::new(|pid: u32| owners.contains_key(pid), |pid: u32| owners[pid]@)
}

/// The first `n` of `connections` that belong to process `pid`.
pub open spec fn owned_in(connections: Seq<ConnectionView>, pid: u32, n: int) -> Seq<
    ConnectionView,
>
    decreases n,
{
    if n <= 0 || n > connections.len() {
        Seq::empty()
    } else if connections[n - 1].pid == Some(pid) {
        owned_in(connections, pid, n - 1).push(connections[n - 1])
    } else {
        owned_in(connections, pid, n - 1)
    }
}

impl ConnectionTracker {
    /// The connections that the tracker holds.
    pub closed spec fn held(&self) -> Seq<ConnectionView> {
        connection_views(self.connections@)
    }

    /// The processes that the open-file listing named, with their names.
    pub closed spec fn owners(&self) -> Map<u32, Seq<char>> {
        owner_views(self.process_map@)
    }

    /// A tracker that holds nothing yet.
    pub fn new() -> (tracker: Self)
        ensures
            tracker.held() == Seq::<ConnectionView>::empty(),
            tracker.owners() == Map::<u32, Seq<char>>::empty(),
    {
        let tracker = ConnectionTracker { connections: Vec::new(), process_map: HashMap::new() };
        assert(tracker.owners() =~= Map::<u32, Seq<char>>::empty());
        tracker
    }

    /// Appends the TCP connections that the connection table lists.
    pub fn parse_tcp_connections(&mut self, netstat_output: &str)
        ensures
            final(self).owners() == old(self).owners(),
            final(self).held() == old(self).held() + tcp_in(
                lines(netstat_output@),
                lines(netstat_output@).len() as int,
            ),
    {
        let all = split_lines(&chars_of(netstat_output));
        let pattern = "(tcp[46]?)\\s+\\d+\\s+\\d+\\s+([\\d\\.\\:]+)\\.(\\d+)\\s+([\\d\\.\\:]+|\\*)\\.(\\d+|\\*)\\s+(\\w+)";
        let mut i: usize = 0;
        while i < all.len()
            invariant
                i <= all@.len(),
                rows(all@) == lines(netstat_output@),
                pattern@ == tcp_pattern(),
                self.process_map == old(self).process_map,
                self.held() == old(self).held() + tcp_in(rows(all@), i as int),
            decreases all@.len() - i,
        {
            let line = string_from_chars(&all[i]);
            match regex_captures(pattern, line.as_str()) {
                Some(groups) => {
                    match tcp_connection_from(&groups) {
                        Some(c) => {
                            let ghost before = self.held();
                            self.connections.push(c);
                            assert(self.held() =~= before.push(c@));
                        },
                        None => {},
                    }
                },
                None => {},
            }
            i = i + 1;
        }
    }

    /// Appends the UDP connections that the connection table lists.
    pub fn parse_udp_connections(&mut self, netstat_output: &str)
        ensures
            final(self).owners() == old(self).owners(),
            final(self).held() == old(self).held() + udp_in(
                lines(netstat_output@),
                lines(netstat_output@).len() as int,
            ),
    {
        let all = split_lines(&chars_of(netstat_output));
        let pattern = "(udp[46]?)\\s+\\d+\\s+\\d+\\s+([\\d\\.\\:]+)\\.(\\d+)\\s+([\\d\\.\\:]+|\\*)\\.(\\d+|\\*)";
        let mut i: usize = 0;
        while i < all.len()
            invariant
                i <= all@.len(),
                rows(all@) == lines(netstat_output@),
                pattern@ == udp_pattern(),
                self.process_map == old(self).process_map,
                self.held() == old(self).held() + udp_in(rows(all@), i as int),
            decreases all@.len() - i,
        {
            let line = string_from_chars(&all[i]);
            match regex_captures(pattern, line.as_str()) {
                Some(groups) => {
                    match udp_connection_from(&groups) {
                        Some(c) => {
                            let ghost before = self.held();
                            self.connections.push(c);
                            assert(self.held() =~= before.push(c@));
                        },
                        None => {},
                    }
                },
                None => {},
            }
            i = i + 1;
        }
    }

    /// Notes that process `pid`, named `process_name`, stands behind the
    /// endpoint that `connection_str` names: the first connection with that
    /// endpoint gets the process as its owner.
    pub fn match_connection_with_process(
        &mut self,
        pid: u32,
        process_name: String,
        connection_str: &str,
    )
        ensures
            final(self).owners() == old(self).owners(),
            final(self).held() == with_owner(
                old(self).held(),
                endpoint_of(connection_str@),
                pid,
                process_name@,
            ),
    {
        let endpoint = parse_endpoint(&chars_of(connection_str));
        let mut i: usize = 0;
        while i < self.connections.len()
            invariant
                i <= self.connections@.len(),
                *self == *old(self),
                endpoint == endpoint_of(connection_str@),
                endpoint_index(self.held(), endpoint, i as int) < 0,
            decreases self.connections@.len() - i,
        {
            let c = &self.connections[i];
            let hit = match endpoint {
                Endpoint::Pair(local, remote) => c.local_port == local && c.remote_port == remote,
                Endpoint::Listening(port) => c.local_port == port && c.state
                    == ConnectionState::Listen,
                Endpoint::Nothing => false,
            };
            if hit {
                proof {
                    lemma_endpoint_index(
                        self.held(),
                        endpoint,
                        i as int,
                        self.held().len() as int,
                    );
                }
                let mut owned = self.connections.remove(i);
                owned.pid = Some(pid);
                owned.process_name = process_name;
                self.connections.insert(i, owned);
                return ;
            }
            i = i + 1;
        }
    }

    /// Matches the open-file listing with the connections: every line that
    /// names a process is noted, and its last field is matched with the
    /// connection table.
    pub fn map_processes_with_lsof(&mut self, lsof_output: &str)
        ensures
            final(self).held() == owners_applied(
                old(self).held(),
                lines(lsof_output@),
                lines(lsof_output@).len() as int,
            ),
            final(self).owners() == owners_noted(
                old(self).owners(),
                lines(lsof_output@),
                lines(lsof_output@).len() as int,
            ),
    {
        let all = split_lines(&chars_of(lsof_output));
        let mut i: usize = 1;
        while i < all.len()
            invariant
                1 <= i,
                i <= all@.len() || all@.len() == 0,
                rows(all@) == lines(lsof_output@),
                self.held() == owners_applied(old(self).held(), rows(all@), i as int),
                self.owners() == owners_noted(old(self).owners(), rows(all@), i as int),
            decreases all@.len() - i,
        {
            let row = split_fields(&all[i]);
            if row.len() >= 9 {
                match parse_u32(&row[1]) {
                    Some(pid) => {
                        let ghost before = self.owners();
                        let name = string_from_chars(&row[0]);
                        self.process_map.insert(pid, name.clone());
                        assert(self.owners() =~= before.insert(pid, name@));
                        let last = string_from_chars(&row[row.len() - 1]);
                        self.match_connection_with_process(pid, name, last.as_str());
                    },
                    None => {},
                }
            }
            i = i + 1;
        }
    }

    /// Reads the connection table: its TCP connections, then its UDP
    /// connections.
    pub fn parse_netstat(&mut self, netstat_output: &str)
        ensures
            final(self).owners() == old(self).owners(),
            final(self).held() == old(self).held() + table_connections(netstat_output@),
    {
        self.parse_tcp_connections(netstat_output);
        self.parse_udp_connections(netstat_output);
    }

    /// Replaces what the tracker holds by what the host prints now: the
    /// connection table, and the open-file listing that names the processes
    /// behind the connections. Either may be missing.
    pub fn refresh(&mut self, netstat_output: Option<&str>, lsof_output: Option<&str>)
        ensures
            final(self).held() == refreshed_connections(
                str_of(netstat_output),
                str_of(lsof_output),
            ),
            final(self).owners() == refreshed_owners(str_of(lsof_output)),
    {
        self.connections.clear();
        self.process_map.clear();
        assert(self.held() =~= Seq::<ConnectionView>::empty());
        assert(self.owners() =~= Map::<u32, Seq<char>>::empty());
        match netstat_output {
            Some(text) => {
                self.parse_netstat(text);
            },
            None => {},
        }
        match lsof_output {
            Some(text) => {
                self.map_processes_with_lsof(text);
            },
            None => {},
        }
    }

    /// Refreshes the tracker and hands out a copy of all connections.
    pub fn get_connections(&mut self, netstat_output: Option<&str>, lsof_output: Option<&str>) -> (all:
        Vec<NetworkConnection>)
        ensures
            final(self).held() == refreshed_connections(
                str_of(netstat_output),
                str_of(lsof_output),
            ),
            connection_views(all@) == final(self).held(),
    {
        self.refresh(netstat_output, lsof_output);
        let mut all: Vec<NetworkConnection> = Vec::new();
        let mut i: usize = 0;
        while i < self.connections.len()
            invariant
                i <= self.connections@.len(),
                all@.len() == i,
                forall|j: int| 0 <= j < i ==> (#[trigger] all@[j])@ == self.connections@[j]@,
            decreases self.connections@.len() - i,
        {
            all.push(self.connections[i].clone());
            i = i + 1;
        }
        all
    }

    /// Refreshes the tracker and hands out a copy of the connections of
    /// process `pid`.
    pub fn get_connections_for_pid(
        &mut self,
        pid: u32,
        netstat_output: Option<&str>,
        lsof_output: Option<&str>,
    ) -> (owned: Vec<NetworkConnection>)
        ensures
            final(self).held() == refreshed_connections(
                str_of(netstat_output),
                str_of(lsof_output),
            ),
            connection_views(owned@) == owned_in(
                final(self).held(),
                pid,
                final(self).held().len() as int,
            ),
    {
        self.refresh(netstat_output, lsof_output);
        let mut owned: Vec<NetworkConnection> = Vec::new();
        let mut i: usize = 0;
        while i < self.connections.len()
            invariant
                i <= self.connections@.len(),
                connection_views(owned@) == owned_in(self.held(), pid, i as int),
            decreases self.connections@.len() - i,
        {
            let is_owned = match self.connections[i].pid {
                Some(p) => p == pid,
                None => false,
            };
            if is_owned {
                let c = self.connections[i].clone();
                owned.push(c);
            }
            i = i + 1;
        }
        owned
    }
}

} // verus!
