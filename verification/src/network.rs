//! The network connection tracker: parsing of raw connection-table rows,
//! filtering by state, snapshot diffing, and the log line for each newly
//! observed connection.
//!
//! The host enumerates the kernel's TCP connection table on its own
//! thread at a fixed cadence and hands each cycle's rows to
//! [`poll_once`]; a cycle whose enumeration failed (the table grew
//! between the size query and the fill) is simply skipped, so no such
//! cycle reaches this module.  Keys are compared only against the
//! immediately preceding snapshot: a connection that vanishes and later
//! returns is reported as new again, and a state change produces a new
//! key, reported on the poll where it is first observed.

use vstd::prelude::*;

use crate::text::{decimal, dotted_quad, port_of_net};
use crate::text::{ipv4_net_to_string, port_from_net, u32_decimal};

verus! {

/// Connection state code for a listening socket.
pub const TCP_STATE_LISTEN: u32 = 2;

/// Connection state code for a connection that sent its opening packet.
pub const TCP_STATE_SYN_SENT: u32 = 3;

/// Connection state code for a connection that received an opening packet.
pub const TCP_STATE_SYN_RECEIVED: u32 = 4;

/// Connection state code for an established connection.
pub const TCP_STATE_ESTABLISHED: u32 = 5;

/// Connection state code for a connection waiting out its teardown.
pub const TCP_STATE_TIME_WAIT: u32 = 11;

/// One raw row of the kernel's connection table, exactly as enumerated:
/// addresses and ports in network byte order, plus owning process and
/// state code.
#[derive(Clone, Copy, PartialEq, Eq, Structural, Debug)]
pub struct TcpRow {
    pub local_addr: u32,
    pub local_port: u32,
    pub remote_addr: u32,
    pub remote_port: u32,
    pub pid: u32,
    pub state: u32,
}

/// The identity of one observed connection.  Two snapshots are compared
/// by equality of this full tuple, so a state transition produces a new
/// key and is treated as a fresh connection.  Addresses stay in network
/// byte order; ports are the parsed host-order numbers.
#[derive(Clone, Copy, PartialEq, Eq, Structural, Debug)]
pub struct TcpConnectionKey {
    pub local_addr: u32,
    pub local_port: u16,
    pub remote_addr: u32,
    pub remote_port: u16,
    pub pid: u32,
    pub state: u32,
}

/// The key a raw table row parses to.
pub open spec fn key_of_row(r: TcpRow) -> TcpConnectionKey {
    TcpConnectionKey {
        local_addr: r.local_addr,
        local_port: port_of_net(r.local_port),
        remote_addr: r.remote_addr,
        remote_port: port_of_net(r.remote_port),
        pid: r.pid,
        state: r.state,
    }
}

/// Parses one raw table row into its connection key.
pub fn connection_key(row: &TcpRow) -> (k: TcpConnectionKey)
    ensures
        k == key_of_row(*row),
{
    TcpConnectionKey {
        local_addr: row.local_addr,
        local_port: port_from_net(row.local_port),
        remote_addr: row.remote_addr,
        remote_port: port_from_net(row.remote_port),
        pid: row.pid,
        state: row.state,
    }
}

/// Whether a connection in this state is reported: only states that
/// represent active or forming communication qualify; listeners and
/// connections in teardown do not.
pub open spec fn is_reportable(state: u32) -> bool {
    state == TCP_STATE_SYN_SENT || state == TCP_STATE_SYN_RECEIVED || state
        == TCP_STATE_ESTABLISHED
}

/// Decides whether a connection in this state is reported.
pub fn reportable_state(state: u32) -> (b: bool)
    ensures
        b == is_reportable(state),
{
    state == TCP_STATE_SYN_SENT || state == TCP_STATE_SYN_RECEIVED || state
        == TCP_STATE_ESTABLISHED
}

/// The set of keys of the reportable rows of one enumeration: what one
/// poll cycle retains as its snapshot.
pub open spec fn snapshot_of(rows: Seq<TcpRow>) -> Set<TcpConnectionKey>
    decreases rows.len(),
{
    if rows.len() == 0 {
        Set::empty()
    } else {
        let rest = snapshot_of(rows.drop_last());
        if is_reportable(rows.last().state) {
            rest.insert(key_of_row(rows.last()))
        } else {
            rest
        }
    }
}

/// The keys one poll cycle reports, in table order: the key of every
/// reportable row that the previous snapshot does not contain.
pub open spec fn new_reports(prev: Set<TcpConnectionKey>, rows: Seq<TcpRow>) -> Seq<
    TcpConnectionKey,
>
    decreases rows.len(),
{
    if rows.len() == 0 {
        Seq::empty()
    } else {
        let head = new_reports(prev, rows.drop_last());
        let r = rows.last();
        if is_reportable(r.state) && !prev.contains(key_of_row(r)) {
            head + seq![key_of_row(r)]
        } else {
            head
        }
    }
}

/// All qualifying connections observed in the most recent poll cycle.
/// Replaced wholesale each cycle, never mutated in place.
pub struct ConnectionSnapshot {
    keys: Vec<TcpConnectionKey>,
}

impl View for ConnectionSnapshot {
    type V = Set<TcpConnectionKey>;

    closed spec fn view(&self) -> Set<TcpConnectionKey> {
        self.keys@.to_set()
    }
}

impl ConnectionSnapshot {
    /// The empty snapshot, used before the first poll cycle.
    pub fn new() -> (s: Self)
        ensures
            s@ == Set::<TcpConnectionKey>::empty(),
    {
        let s = ConnectionSnapshot { keys: Vec::new() };
        proof {
            assert(s@ =~= Set::<TcpConnectionKey>::empty());
        }
        s
    }

    /// Whether this snapshot recorded `k`.
    pub fn contains_key(&self, k: &TcpConnectionKey) -> (b: bool)
        ensures
            b == self@.contains(*k),
    {
        let mut i: usize = 0;
        while i < self.keys.len()
            invariant
                i <= self.keys.len(),
                forall|j: int| 0 <= j < i ==> self.keys@[j] != *k,
            decreases self.keys.len() - i,
        {
            if self.keys[i] == *k {
                proof {
                    assert(self.keys@.contains(*k));
                }
                return true;
            }
            i += 1;
        }
        proof {
            assert(!self.keys@.contains(*k));
        }
        false
    }

    /// Records `k` in this snapshot.
    pub fn record(&mut self, k: TcpConnectionKey)
        ensures
            final(self)@ == old(self)@.insert(k),
    {
        proof {
            self.keys@.lemma_push_to_set_commute(k);
        }
        self.keys.push(k);
    }
}

/// One cycle of the tracker's loop, on the rows the host enumerated this
/// cycle: filters the rows by state, diffs their keys against the
/// previous cycle's snapshot, and yields the fresh snapshot together with
/// the keys to report, in table order.  The caller replaces its retained
/// snapshot with the returned one and logs a line for each reported key.
pub fn poll_once(prev: &ConnectionSnapshot, rows: &Vec<TcpRow>) -> (r: (
    ConnectionSnapshot,
    Vec<TcpConnectionKey>,
))
    ensures
        r.0@ == snapshot_of(rows@),
        r.1@ == new_reports(prev@, rows@),
{
    let mut current = ConnectionSnapshot::new();
    let mut reports: Vec<TcpConnectionKey> = Vec::new();
    let mut i: usize = 0;
    while i < rows.len()
        invariant
            i <= rows.len(),
            current@ == snapshot_of(rows@.take(i as int)),
            reports@ == new_reports(prev@, rows@.take(i as int)),
        decreases rows.len() - i,
    {
        let row = rows[i];
        proof {
            assert(rows@.take(i + 1 as int).drop_last() =~= rows@.take(i as int));
            assert(rows@.take(i + 1 as int).last() == rows@[i as int]);
        }
        if reportable_state(row.state) {
            let k = connection_key(&row);
            if !prev.contains_key(&k) {
                reports.push(k);
            }
            current.record(k);
        }
        i += 1;
    }
    proof {
        assert(rows@.take(rows@.len() as int) =~= rows@);
    }
    (current, reports)
}

// ---------------------------------------------------------------------------
// Properties of the diff
// ---------------------------------------------------------------------------

proof fn lemma_snapshot_contains_key(rows: Seq<TcpRow>, i: int)
    requires
        0 <= i < rows.len(),
        is_reportable(rows[i].state),
    ensures
        snapshot_of(rows).contains(key_of_row(rows[i])),
    decreases rows.len(),
{
    if i == rows.len() - 1 {
        assert(rows.last() == rows[i]);
    } else {
        lemma_snapshot_contains_key(rows.drop_last(), i);
        assert(rows.drop_last()[i] == rows[i]);
    }
}

proof fn lemma_no_reports_when_covered(prev: Set<TcpConnectionKey>, rows: Seq<TcpRow>)
    requires
        forall|i: int|
            0 <= i < rows.len() && is_reportable(rows[i].state) ==> prev.contains(
                #[trigger] key_of_row(rows[i]),
            ),
    ensures
        new_reports(prev, rows).len() == 0,
    decreases rows.len(),
{
    if rows.len() > 0 {
        let shorter = rows.drop_last();
        assert forall|i: int|
            0 <= i < shorter.len() && is_reportable(shorter[i].state) implies prev.contains(
            #[trigger] key_of_row(shorter[i]),
        ) by {
            assert(shorter[i] == rows[i]);
        }
        lemma_no_reports_when_covered(prev, shorter);
        assert(key_of_row(rows[rows.len() - 1]) == key_of_row(rows.last()));
    }
}

/// Feeding the tracker the same table twice in a row yields nothing on
/// the second pass: every reportable row's key already stands in the
/// snapshot the first pass produced, so the diff is empty.
pub proof fn lemma_second_poll_of_same_table_is_silent(rows: Seq<TcpRow>)
    ensures
        new_reports(snapshot_of(rows), rows).len() == 0,
{
    assert forall|i: int|
        0 <= i < rows.len() && is_reportable(rows[i].state) implies snapshot_of(rows).contains(
        #[trigger] key_of_row(rows[i]),
    ) by {
        lemma_snapshot_contains_key(rows, i);
    }
    lemma_no_reports_when_covered(snapshot_of(rows), rows);
}

/// How often `k` occurs among the reported keys.
pub open spec fn occurrence_count(reports: Seq<TcpConnectionKey>, k: TcpConnectionKey) -> nat
    decreases reports.len(),
{
    if reports.len() == 0 {
        0
    } else {
        occurrence_count(reports.drop_last(), k) + (if reports.last() == k {
            1nat
        } else {
            0nat
        })
    }
}

/// How many reportable rows of the table carry the key `k`.
pub open spec fn reportable_row_count(rows: Seq<TcpRow>, k: TcpConnectionKey) -> nat
    decreases rows.len(),
{
    if rows.len() == 0 {
        0
    } else {
        reportable_row_count(rows.drop_last(), k) + (if is_reportable(rows.last().state)
            && key_of_row(rows.last()) == k {
            1nat
        } else {
            0nat
        })
    }
}

/// What one poll reports of a single key: nothing when the previous
/// snapshot already holds it, and otherwise one report per reportable
/// row that carries it.
pub proof fn lemma_report_count(prev: Set<TcpConnectionKey>, rows: Seq<TcpRow>, k: TcpConnectionKey)
    ensures
        occurrence_count(new_reports(prev, rows), k) == (if prev.contains(k) {
            0nat
        } else {
            reportable_row_count(rows, k)
        }),
    decreases rows.len(),
{
    if rows.len() > 0 {
        lemma_report_count(prev, rows.drop_last(), k);
        let head = new_reports(prev, rows.drop_last());
        let r = rows.last();
        if is_reportable(r.state) && !prev.contains(key_of_row(r)) {
            let appended = head + seq![key_of_row(r)];
            assert(appended.drop_last() =~= head);
            assert(appended.last() == key_of_row(r));
        }
    }
}

/// A connection whose recorded state changed between polls carries a key
/// the previous snapshot cannot contain, so it is reported again: exactly
/// once, on the poll where the change is first observed, when the table
/// shows it in one row.
pub proof fn lemma_fresh_key_reported_exactly_once(
    prev: Set<TcpConnectionKey>,
    rows: Seq<TcpRow>,
    k: TcpConnectionKey,
)
    requires
        !prev.contains(k),
        reportable_row_count(rows, k) == 1,
    ensures
        occurrence_count(new_reports(prev, rows), k) == 1,
{
    lemma_report_count(prev, rows, k);
}

/// A state change on an otherwise identical connection produces a new
/// key, by design: the key tuple includes the state.
pub proof fn lemma_state_change_makes_new_key(a: TcpRow, b: TcpRow)
    requires
        a.local_addr == b.local_addr,
        a.local_port == b.local_port,
        a.remote_addr == b.remote_addr,
        a.remote_port == b.remote_port,
        a.pid == b.pid,
        a.state != b.state,
    ensures
        key_of_row(a) != key_of_row(b),
{
}

/// Every reported key is in a reportable state: a connection enumerated
/// as listening or in teardown is never reported, even on its first
/// observation.
pub proof fn lemma_reports_only_active_states(
    prev: Set<TcpConnectionKey>,
    rows: Seq<TcpRow>,
    i: int,
)
    requires
        0 <= i < new_reports(prev, rows).len(),
    ensures
        is_reportable(new_reports(prev, rows)[i].state),
        new_reports(prev, rows)[i].state != TCP_STATE_LISTEN,
        new_reports(prev, rows)[i].state != TCP_STATE_TIME_WAIT,
    decreases rows.len(),
{
    if rows.len() > 0 {
        let head = new_reports(prev, rows.drop_last());
        if i < head.len() {
            lemma_reports_only_active_states(prev, rows.drop_last(), i);
        }
    }
}

// ---------------------------------------------------------------------------
// Log lines
// ---------------------------------------------------------------------------

/// The human-readable label of a connection state code.
pub open spec fn state_label(state: u32) -> Seq<char> {
    if state == 1 {
        "CLOSED"@
    } else if state == 2 {
        "LISTEN"@
    } else if state == 3 {
        "SYN_SENT"@
    } else if state == 4 {
        "SYN_RECEIVED"@
    } else if state == 5 {
        "ESTABLISHED"@
    } else if state == 6 {
        "FIN_WAIT_1"@
    } else if state == 7 {
        "FIN_WAIT_2"@
    } else if state == 8 {
        "CLOSE_WAIT"@
    } else if state == 9 {
        "CLOSING"@
    } else if state == 10 {
        "LAST_ACK"@
    } else if state == 11 {
        "TIME_WAIT"@
    } else if state == 12 {
        "DELETE_TCB"@
    } else {
        "UNKNOWN"@
    }
}

/// The human-readable label of a connection state code.
pub fn tcp_state_string(state: u32) -> (s: &'static str)
    ensures
        s@ == state_label(state),
{
    match state {
        1 => "CLOSED",
        2 => "LISTEN",
        3 => "SYN_SENT",
        4 => "SYN_RECEIVED",
        5 => "ESTABLISHED",
        6 => "FIN_WAIT_1",
        7 => "FIN_WAIT_2",
        8 => "CLOSE_WAIT",
        9 => "CLOSING",
        10 => "LAST_ACK",
        11 => "TIME_WAIT",
        12 => "DELETE_TCB",
        _ => "UNKNOWN",
    }
}

/// The line reported for a newly observed connection.
pub open spec fn tcp_line(k: TcpConnectionKey) -> Seq<char> {
    "TCP: "@ + dotted_quad(k.local_addr) + ":"@ + decimal(k.local_port as nat) + " → "@
        + dotted_quad(k.remote_addr) + ":"@ + decimal(k.remote_port as nat) + ", PID="@ + decimal(
        k.pid as nat,
    ) + ", STATE="@ + state_label(k.state)
}

/// Builds the log line for a newly observed connection.
pub fn tcp_log_line(key: &TcpConnectionKey) -> (s: String)
    ensures
        s@ == tcp_line(*key),
{
    let mut s = String::from_str("TCP: ");
    s.append(ipv4_net_to_string(key.local_addr).as_str());
    s.append(":");
    s.append(u32_decimal(key.local_port as u32).as_str());
    s.append(" → ");
    s.append(ipv4_net_to_string(key.remote_addr).as_str());
    s.append(":");
    s.append(u32_decimal(key.remote_port as u32).as_str());
    s.append(", PID=");
    s.append(u32_decimal(key.pid).as_str());
    s.append(", STATE=");
    s.append(tcp_state_string(key.state));
    proof {
        assert(s@ =~= tcp_line(*key));
    }
    s
}

} // verus!
