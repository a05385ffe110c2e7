//! Decimal text for IPv4 addresses: each octet in dotted-decimal notation.

use vstd::prelude::*;
use vstd::string::*;

verus! {

/// The decimal digit character for `d`.
pub open spec fn digit_char(d: nat) -> char
    recommends
        d < 10,
{
    if d == 0 {
        '0'
    } else if d == 1 {
        '1'
    } else if d == 2 {
        '2'
    } else if d == 3 {
        '3'
    } else if d == 4 {
        '4'
    } else if d == 5 {
        '5'
    } else if d == 6 {
        '6'
    } else if d == 7 {
        '7'
    } else if d == 8 {
        '8'
    } else {
        '9'
    }
}

/// The decimal text of an octet value, without leading zeros.
pub open spec fn octet_text(n: nat) -> Seq<char>
    recommends
        n < 256,
{
    if n < 10 {
        seq![digit_char(n)]
    } else if n < 100 {
        seq![digit_char(n / 10), digit_char(n % 10)]
    } else {
        seq![digit_char(n / 100), digit_char((n / 10) % 10), digit_char(n % 10)]
    }
}

/// The dotted-decimal text of an IPv4 address given as one 32-bit value,
/// highest octet first.
pub open spec fn ipv4_text(a: u32) -> Seq<char> {
    octet_text(((a >> 24) & 0xff) as nat) + "."@ + octet_text(((a >> 16) & 0xff) as nat) + "."@
        + octet_text(((a >> 8) & 0xff) as nat) + "."@ + octet_text((a & 0xff) as nat)
}

/// The one-character string of the decimal digit `d`.
fn digit_str(d: u8) -> (r: &'static str)
    requires
        d < 10,
    ensures
        r@ == seq![digit_char(d as nat)],
{
    proof {
        reveal_strlit("0");
        reveal_strlit("1");
        reveal_strlit("2");
        reveal_strlit("3");
        reveal_strlit("4");
        reveal_strlit("5");
        reveal_strlit("6");
        reveal_strlit("7");
        reveal_strlit("8");
        reveal_strlit("9");
    }
    let r: &'static str = if d == 0 {
        "0"
    } else if d == 1 {
        "1"
    } else if d == 2 {
        "2"
    } else if d == 3 {
        "3"
    } else if d == 4 {
        "4"
    } else if d == 5 {
        "5"
    } else if d == 6 {
        "6"
    } else if d == 7 {
        "7"
    } else if d == 8 {
        "8"
    } else {
        "9"
    };
    proof {
        assert(r@ =~= seq![digit_char(d as nat)]);
    }
    r
}

/// Appends the decimal text of the octet `n` to `out`.
fn append_octet(out: &mut String, n: u8)
    ensures
        final(out)@ == old(out)@ + octet_text(n as nat),
{
    if n < 10 {
        out.append(digit_str(n));
    } else if n < 100 {
        out.append(digit_str(n / 10));
        out.append(digit_str(n % 10));
    } else {
        out.append(digit_str(n / 100));
        out.append(digit_str((n / 10) % 10));
        out.append(digit_str(n % 10));
    }
    proof {
        assert(out@ =~= old(out)@ + octet_text(n as nat));
    }
}

/// Formats an IPv4 address as dotted-decimal text.
pub fn format_ipv4(a: u32) -> (r: String)
    ensures
        r@ == ipv4_text(a),
{
    let mut out = String::new();
    append_octet(&mut out, ((a >> 24) & 0xff) as u8);
    out.append(".");
    append_octet(&mut out, ((a >> 16) & 0xff) as u8);
    out.append(".");
    append_octet(&mut out, ((a >> 8) & 0xff) as u8);
    out.append(".");
    append_octet(&mut out, (a & 0xff) as u8);
    proof {
        assert((a >> 24) & 0xff < 256 && (a >> 16) & 0xff < 256 && (a >> 8) & 0xff < 256 && a
            & 0xff < 256) by (bit_vector);
        assert(out@ =~= ipv4_text(a));
    }
    out
}

} // verus!
