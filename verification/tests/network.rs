use windows_watcher::network::{
    connection_key, poll_once, reportable_state, tcp_log_line, tcp_state_string,
    ConnectionSnapshot, TcpRow,
};

/// Encodes an IPv4 address as the connection table stores it: network
/// byte order, first octet in the lowest-order byte.
fn net_addr(a: u32, b: u32, c: u32, d: u32) -> u32 {
    a | (b << 8) | (c << 16) | (d << 24)
}

/// Encodes a port number as the connection table stores it in its raw
/// 32-bit port field: network byte order in the low 16 bits, high byte
/// of the port first.
fn net_port(port: u16) -> u32 {
    ((port as u32) >> 8) | (((port as u32) & 0xff) << 8)
}

fn row(local: u32, lport: u16, remote: u32, rport: u16, pid: u32, state: u32) -> TcpRow {
    TcpRow {
        local_addr: local,
        local_port: net_port(lport),
        remote_addr: remote,
        remote_port: net_port(rport),
        pid,
        state,
    }
}

fn established_row() -> TcpRow {
    row(net_addr(10, 0, 0, 5), 51000, net_addr(93, 10, 1, 1), 443, 400, 5)
}

#[test]
fn raw_rows_parse_to_host_order_keys() {
    let key = connection_key(&established_row());
    assert_eq!(key.local_addr, net_addr(10, 0, 0, 5));
    assert_eq!(key.local_port, 51000);
    assert_eq!(key.remote_addr, net_addr(93, 10, 1, 1));
    assert_eq!(key.remote_port, 443);
    assert_eq!(key.pid, 400);
    assert_eq!(key.state, 5);
}

#[test]
fn tcp_line_format() {
    let key = connection_key(&established_row());
    assert_eq!(tcp_log_line(&key), "TCP: 10.0.0.5:51000 → 93.10.1.1:443, PID=400, STATE=ESTABLISHED");
}

#[test]
fn state_labels() {
    assert_eq!(tcp_state_string(1), "CLOSED");
    assert_eq!(tcp_state_string(2), "LISTEN");
    assert_eq!(tcp_state_string(3), "SYN_SENT");
    assert_eq!(tcp_state_string(4), "SYN_RECEIVED");
    assert_eq!(tcp_state_string(5), "ESTABLISHED");
    assert_eq!(tcp_state_string(6), "FIN_WAIT_1");
    assert_eq!(tcp_state_string(7), "FIN_WAIT_2");
    assert_eq!(tcp_state_string(8), "CLOSE_WAIT");
    assert_eq!(tcp_state_string(9), "CLOSING");
    assert_eq!(tcp_state_string(10), "LAST_ACK");
    assert_eq!(tcp_state_string(11), "TIME_WAIT");
    assert_eq!(tcp_state_string(12), "DELETE_TCB");
    assert_eq!(tcp_state_string(0), "UNKNOWN");
    assert_eq!(tcp_state_string(99), "UNKNOWN");
}

#[test]
fn only_forming_or_established_states_are_reportable() {
    for state in 0u32..16 {
        assert_eq!(reportable_state(state), state == 3 || state == 4 || state == 5);
    }
}

#[test]
fn empty_then_one_connection_then_steady() {
    // Poll 1: empty table.
    let empty = ConnectionSnapshot::new();
    let (snap1, reports1) = poll_once(&empty, &vec![]);
    assert_eq!(reports1.len(), 0);

    // Poll 2: one established connection appears; exactly one report.
    let table = vec![established_row()];
    let (snap2, reports2) = poll_once(&snap1, &table);
    assert_eq!(reports2.len(), 1);
    assert_eq!(reports2[0].pid, 400);
    assert_eq!(reports2[0].state, 5);
    assert_eq!(
        tcp_log_line(&reports2[0]),
        "TCP: 10.0.0.5:51000 → 93.10.1.1:443, PID=400, STATE=ESTABLISHED"
    );

    // Poll 3: identical table; nothing new.
    let (_, reports3) = poll_once(&snap2, &table);
    assert_eq!(reports3.len(), 0);
}

#[test]
fn same_table_twice_reports_nothing_the_second_time() {
    let table = vec![
        established_row(),
        row(net_addr(10, 0, 0, 5), 51001, net_addr(1, 1, 1, 1), 80, 77, 3),
        row(net_addr(192, 168, 0, 2), 1024, net_addr(8, 8, 8, 8), 53, 90, 4),
    ];
    let empty = ConnectionSnapshot::new();
    let (snap, first) = poll_once(&empty, &table);
    assert_eq!(first.len(), 3);
    let (_, second) = poll_once(&snap, &table);
    assert_eq!(second.len(), 0);
}

#[test]
fn state_change_is_reported_again_exactly_once() {
    let empty = ConnectionSnapshot::new();
    let syn = row(net_addr(10, 0, 0, 5), 51000, net_addr(93, 10, 1, 1), 443, 400, 3);
    let (snap1, reports1) = poll_once(&empty, &vec![syn]);
    assert_eq!(reports1.len(), 1);
    assert_eq!(reports1[0].state, 3);

    // Same tuple, now established: a new key, reported once more.
    let table2 = vec![established_row()];
    let (snap2, reports2) = poll_once(&snap1, &table2);
    assert_eq!(reports2.len(), 1);
    assert_eq!(reports2[0].state, 5);

    // Steady afterwards.
    let (_, reports3) = poll_once(&snap2, &table2);
    assert_eq!(reports3.len(), 0);
}

#[test]
fn listeners_and_teardown_states_are_never_reported() {
    let empty = ConnectionSnapshot::new();
    let table = vec![
        row(net_addr(0, 0, 0, 0), 135, net_addr(0, 0, 0, 0), 0, 4, 2),  // LISTEN
        row(net_addr(10, 0, 0, 5), 50000, net_addr(5, 5, 5, 5), 443, 8, 11),  // TIME_WAIT
        row(net_addr(10, 0, 0, 5), 50001, net_addr(5, 5, 5, 5), 443, 8, 1),  // CLOSED
        row(net_addr(10, 0, 0, 5), 50002, net_addr(5, 5, 5, 5), 443, 8, 8),  // CLOSE_WAIT
    ];
    let (snap, reports) = poll_once(&empty, &table);
    assert_eq!(reports.len(), 0);
    // Even on a later poll they stay unreported.
    let (_, reports) = poll_once(&snap, &table);
    assert_eq!(reports.len(), 0);
}

#[test]
fn filtered_rows_are_not_retained_in_the_snapshot() {
    // A row that is LISTEN on poll 1 and ESTABLISHED on poll 2 is new on
    // poll 2: the filtered first observation left no trace.
    let empty = ConnectionSnapshot::new();
    let listen = row(net_addr(10, 0, 0, 9), 6000, net_addr(2, 2, 2, 2), 443, 30, 2);
    let (snap1, reports1) = poll_once(&empty, &vec![listen]);
    assert_eq!(reports1.len(), 0);
    let established = row(net_addr(10, 0, 0, 9), 6000, net_addr(2, 2, 2, 2), 443, 30, 5);
    let (_, reports2) = poll_once(&snap1, &vec![established]);
    assert_eq!(reports2.len(), 1);
}

#[test]
fn a_connection_that_vanishes_and_returns_is_new_again() {
    let empty = ConnectionSnapshot::new();
    let table = vec![established_row()];
    let (snap1, reports1) = poll_once(&empty, &table);
    assert_eq!(reports1.len(), 1);
    // The connection disappears for one poll...
    let (snap2, reports2) = poll_once(&snap1, &vec![]);
    assert_eq!(reports2.len(), 0);
    // ...and returns with an identical tuple: reported again.
    let (_, reports3) = poll_once(&snap2, &table);
    assert_eq!(reports3.len(), 1);
}

#[test]
fn reports_come_in_table_order() {
    let empty = ConnectionSnapshot::new();
    let table = vec![
        row(net_addr(10, 0, 0, 1), 1, net_addr(9, 9, 9, 9), 443, 1, 5),
        row(net_addr(10, 0, 0, 2), 2, net_addr(9, 9, 9, 9), 443, 2, 5),
        row(net_addr(10, 0, 0, 3), 3, net_addr(9, 9, 9, 9), 443, 3, 5),
    ];
    let (_, reports) = poll_once(&empty, &table);
    assert_eq!(reports.len(), 3);
    assert_eq!(reports[0].pid, 1);
    assert_eq!(reports[1].pid, 2);
    assert_eq!(reports[2].pid, 3);
}

#[test]
fn snapshot_records_and_finds_keys() {
    let mut snap = ConnectionSnapshot::new();
    let key = connection_key(&established_row());
    let other = connection_key(&row(net_addr(1, 2, 3, 4), 5, net_addr(6, 7, 8, 9), 10, 11, 4));
    assert!(!snap.contains_key(&key));
    snap.record(key);
    assert!(snap.contains_key(&key));
    assert!(!snap.contains_key(&other));
}

#[test]
fn port_and_address_byte_order() {
    // 443 = 0x01BB: high byte first in the raw field's low bytes.
    let key = connection_key(&row(net_addr(127, 0, 0, 1), 443, net_addr(255, 254, 1, 0), 65535, 1, 5));
    assert_eq!(key.local_port, 443);
    assert_eq!(key.remote_port, 65535);
    assert_eq!(
        tcp_log_line(&key),
        "TCP: 127.0.0.1:443 → 255.254.1.0:65535, PID=1, STATE=ESTABLISHED"
    );
}
