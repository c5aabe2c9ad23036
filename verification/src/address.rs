//! Textual socket addresses: a host, a colon, and the port in decimal.

use vstd::prelude::*;

verus! {

/// The character of a decimal digit.
pub open spec fn digit_char(d: nat) -> char
    recommends
        d < 10,
{
    ('0' as nat + d) as char
}

/// The number a digit character stands for.
pub open spec fn digit_value(c: char) -> nat {
    (c as int - '0' as int) as nat
}

/// The decimal digits of a number, most significant first, without leading
/// zeros.
pub open spec fn decimal(n: nat) -> Seq<char>
    decreases n,
{
    if n < 10 {
        seq![digit_char(n)]
    } else {
        decimal(n / 10).push(digit_char(n % 10))
    }
}

/// The number that a sequence of decimal digits stands for.
pub open spec fn decimal_value(digits: Seq<char>) -> nat
    decreases digits.len(),
{
    if digits.len() == 0 {
        0
    } else {
        10 * decimal_value(digits.drop_last()) + digit_value(digits.last())
    }
}

/// The address of a port on a host.
pub open spec fn address(host: Seq<char>, port: u16) -> Seq<char> {
    host + seq![':'] + decimal(port as nat)
}

/// A number is found again in its decimal digits, and those hold no colon.
pub proof fn decimal_round_trip(n: nat)
    ensures
        decimal_value(decimal(n)) == n,
        decimal(n).len() > 0,
        forall|i: int| 0 <= i < decimal(n).len() ==> #[trigger] decimal(n)[i] != ':',
    decreases n,
{
    reveal_with_fuel(decimal_value, 2);
    if n < 10 {
        assert(decimal(n).drop_last() =~= Seq::<char>::empty());
    } else {
        decimal_round_trip(n / 10);
        assert(decimal(n).drop_last() =~= decimal(n / 10));
    }
}

/// An address stands for one host and one port only.
pub proof fn address_is_unambiguous(host1: Seq<char>, port1: u16, host2: Seq<char>, port2: u16)
    requires
        address(host1, port1) == address(host2, port2),
    ensures
        host1 == host2,
        port1 == port2,
{
    let a1 = address(host1, port1);
    let a2 = address(host2, port2);
    let d1 = decimal(port1 as nat);
    let d2 = decimal(port2 as nat);
    decimal_round_trip(port1 as nat);
    decimal_round_trip(port2 as nat);
    assert(a1.len() == host1.len() + 1 + d1.len());
    assert(a2.len() == host2.len() + 1 + d2.len());
    assert(a1[host1.len() as int] == ':');
    assert(a2[host2.len() as int] == ':');
    if host1.len() < host2.len() {
        assert(a1[host2.len() as int] == d1[host2.len() - host1.len() - 1]);
        assert(false);
    }
    if host2.len() < host1.len() {
        assert(a2[host1.len() as int] == d2[host1.len() - host2.len() - 1]);
        assert(false);
    }
    assert(host1 =~= a1.take(host1.len() as int));
    assert(host2 =~= a2.take(host2.len() as int));
    assert(d1 =~= a1.skip(host1.len() as int + 1));
    assert(d2 =~= a2.skip(host2.len() as int + 1));
}

/// An address is its host, a colon, and digits that stand for its port.
pub proof fn address_has_its_parts(host: Seq<char>, port: u16)
    ensures
        address(host, port).len() > host.len() + 1,
        address(host, port).take(host.len() as int) == host,
        address(host, port)[host.len() as int] == ':',
        decimal_value(address(host, port).skip(host.len() as int + 1)) == port,
{
    decimal_round_trip(port as nat);
    assert(address(host, port).take(host.len() as int) =~= host);
    assert(address(host, port).skip(host.len() as int + 1) =~= decimal(port as nat));
}

/// The text of one decimal digit.
fn digit_text(d: u16) -> (res: &'static str)
    requires
        d < 10,
    ensures
        res@ == seq![digit_char(d as nat)],
{
    proof {
        reveal_strlit("0");
        reveal_strlit("1");
        reveal_strlit("2");
        reveal_strlit("3");
        reveal_strlit("4");
        reveal_strlit("5");
        reveal_strlit("6");
        reveal_strlit("7");
        reveal_strlit("8");
        reveal_strlit("9");
    }
    match d {
        0 => "0",
        1 => "1",
        2 => "2",
        3 => "3",
        4 => "4",
        5 => "5",
        6 => "6",
        7 => "7",
        8 => "8",
        _ => "9",
    }
}

/// Appends a number in decimal.
fn push_decimal(text: &mut String, n: u16)
    ensures
        final(text)@ == old(text)@ + decimal(n as nat),
    decreases n,
{
    if n < 10 {
        text.append(digit_text(n));
    } else {
        push_decimal(text, n / 10);
        text.append(digit_text(n % 10));
    }
}

/// Writes the address of a port on a host.
pub fn format_address(host: &str, port: u16) -> (res: String)
    ensures
        res@ == address(host@, port),
{
    proof {
        reveal_strlit(":");
    }
    let mut text = String::new();
    text.append(host);
    text.append(":");
    push_decimal(&mut text, port);
    text
}

} // verus!
