//! Plain-text rendering of the numeric values that appear in log lines:
//! decimal numerals, signed coordinates and dotted-quad IPv4 addresses.

use vstd::prelude::*;

verus! {

/// The character for the decimal digit `d`.
pub open spec fn digit_char(d: nat) -> char
    recommends
        d < 10,
{
    if d == 0 {
        '0'
    } else if d == 1 {
        '1'
    } else if d == 2 {
        '2'
    } else if d == 3 {
        '3'
    } else if d == 4 {
        '4'
    } else if d == 5 {
        '5'
    } else if d == 6 {
        '6'
    } else if d == 7 {
        '7'
    } else if d == 8 {
        '8'
    } else {
        '9'
    }
}

/// The decimal numeral of `n`, most significant digit first, without
/// leading zeros (the numeral of zero is "0").
pub open spec fn decimal(n: nat) -> Seq<char>
    decreases n,
{
    if n < 10 {
        seq![digit_char(n)]
    } else {
        decimal(n / 10) + seq![digit_char(n % 10)]
    }
}

/// The rendering of a signed coordinate: a minus sign before the numeral
/// of the magnitude when the value is negative.
pub open spec fn signed_decimal(v: int) -> Seq<char> {
    if v < 0 {
        seq!['-'] + decimal((-v) as nat)
    } else {
        decimal(v as nat)
    }
}

fn digit_str(d: u32) -> (s: &'static str)
    requires
        d < 10,
    ensures
        s@ == seq![digit_char(d as nat)],
{
    proof {
        reveal_strlit("0");
        reveal_strlit("1");
        reveal_strlit("2");
        reveal_strlit("3");
        reveal_strlit("4");
        reveal_strlit("5");
        reveal_strlit("6");
        reveal_strlit("7");
        reveal_strlit("8");
        reveal_strlit("9");
    }
    let s: &'static str = match d {
        0 => "0",
        1 => "1",
        2 => "2",
        3 => "3",
        4 => "4",
        5 => "5",
        6 => "6",
        7 => "7",
        8 => "8",
        _ => "9",
    };
    proof {
        assert(s@ =~= seq![digit_char(d as nat)]);
    }
    s
}

/// Renders `n` as its decimal numeral.
pub fn u32_decimal(n: u32) -> (s: String)
    ensures
        s@ == decimal(n as nat),
    decreases n,
{
    if n < 10 {
        String::from_str(digit_str(n))
    } else {
        let mut s = u32_decimal(n / 10);
        s.append(digit_str(n % 10));
        s
    }
}

/// The dotted-quad rendering of an IPv4 address held as a 32-bit value in
/// network byte order, as the kernel's connection table stores it: the
/// lowest-order byte of the value is the first octet written.
pub open spec fn dotted_quad(addr_net: u32) -> Seq<char> {
    decimal((addr_net & 0xff) as nat) + seq!['.'] + decimal(((addr_net >> 8) & 0xff) as nat)
        + seq!['.'] + decimal(((addr_net >> 16) & 0xff) as nat) + seq!['.'] + decimal(
        ((addr_net >> 24) & 0xff) as nat,
    )
}

/// The port number carried by a connection-table port field.  The table
/// stores the port in network byte order in the low 16 bits of the raw
/// 32-bit field: the port's high byte in the lowest-order byte of the
/// value, its low byte in the next.  This reads it out as a host-order
/// value.
pub open spec fn port_of_net(raw: u32) -> u16 {
    (((raw & 0xff) * 256) + ((raw >> 8) & 0xff)) as u16
}

/// Renders a signed coordinate, with a minus sign when negative.
pub fn i32_decimal(v: i32) -> (s: String)
    ensures
        s@ == signed_decimal(v as int),
{
    if v < 0 {
        let magnitude: u32 = (-(v as i64)) as u32;
        let mut s = String::from_str("-");
        s.append(u32_decimal(magnitude).as_str());
        proof {
            reveal_strlit("-");
            assert(s@ =~= signed_decimal(v as int));
        }
        s
    } else {
        u32_decimal(v as u32)
    }
}

/// Renders an IPv4 address held in network byte order as a dotted quad.
pub fn ipv4_net_to_string(addr_net: u32) -> (s: String)
    ensures
        s@ == dotted_quad(addr_net),
{
    let mut s = u32_decimal(addr_net & 0xff);
    s.append(".");
    s.append(u32_decimal((addr_net >> 8) & 0xff).as_str());
    s.append(".");
    s.append(u32_decimal((addr_net >> 16) & 0xff).as_str());
    s.append(".");
    s.append(u32_decimal((addr_net >> 24) & 0xff).as_str());
    proof {
        reveal_strlit(".");
        assert(s@ =~= dotted_quad(addr_net));
    }
    s
}

/// Reads the port number out of a raw connection-table port field.
pub fn port_from_net(raw: u32) -> (p: u16)
    ensures
        p == port_of_net(raw),
{
    let hi: u32 = raw & 0xff;
    let lo: u32 = (raw >> 8) & 0xff;
    proof {
        assert((raw & 0xff) < 256 && ((raw >> 8) & 0xff) < 256) by (bit_vector);
    }
    (hi * 256 + lo) as u16
}

/// The form of every emitted log line: the timestamp in brackets, then the
/// message.
pub open spec fn stamped(timestamp: Seq<char>, message: Seq<char>) -> Seq<char> {
    "["@ + timestamp + "] "@ + message
}

/// Prefixes a log message with its timestamp, as the log sink writes it.
pub fn stamped_line(timestamp: &str, message: &str) -> (s: String)
    ensures
        s@ == stamped(timestamp@, message@),
{
    let mut s = String::from_str("[");
    s.append(timestamp);
    s.append("] ");
    s.append(message);
    proof {
        assert(s@ =~= stamped(timestamp@, message@));
    }
    s
}

} // verus!
