//! Network addresses as plain values, their text form, and the choice of a
//! usable address among several.

use vstd::prelude::*;
use crate::text::push_char;

verus! {

/// An IP address.
#[derive(Debug, Clone, Copy, PartialEq, Eq, Structural)]
pub enum IpAddress {
    /// The four octets, most significant first.
    V4(u8, u8, u8, u8),
    /// The eight 16-bit groups, most significant first.
    V6(u16, u16, u16, u16, u16, u16, u16, u16),
}

/// An IPv4 address outside the loopback block 127.0.0.0/8: the only kind the
/// daemon advertises or connects to.
pub open spec fn usable(a: IpAddress) -> bool {
    match a {
        IpAddress::V4(first, _, _, _) => first != 127,
        IpAddress::V6(..) => false,
    }
}

impl IpAddress {
    /// Whether this is an IPv4 address outside the loopback block.
    pub fn is_usable(&self) -> (r: bool)
        ensures
            r == usable(*self),
    {
        match self {
            IpAddress::V4(first, _, _, _) => *first != 127,
            IpAddress::V6(..) => false,
        }
    }
}

/// The character of the decimal digit `d`.
pub open spec fn digit_char(d: nat) -> char {
    ((d + 48) as u32) as char
}

/// `n` in decimal, without leading zeros.
pub open spec fn decimal(n: nat) -> Seq<char>
    decreases n,
{
    if n < 10 {
        seq![digit_char(n)]
    } else {
        decimal(n / 10).push(digit_char(n % 10))
    }
}

/// Appends `n` in decimal to `s`.
pub fn push_decimal(s: &mut String, n: u64)
    ensures
        final(s)@ == old(s)@ + decimal(n as nat),
    decreases n,
{
    if n >= 10 {
        push_decimal(s, n / 10);
    }
    let d: u8 = (n % 10) as u8;
    let c: char = (d + 48) as char;
    push_char(s, c);
    assert(final(s)@ =~= old(s)@ + decimal(n as nat));
}

/// The dotted-decimal text of the IPv4 address `a.b.c.d`.
pub open spec fn ipv4_text(a: u8, b: u8, c: u8, d: u8) -> Seq<char> {
    decimal(a as nat) + seq!['.'] + decimal(b as nat) + seq!['.'] + decimal(c as nat) + seq!['.']
        + decimal(d as nat)
}

/// Writes the IPv4 address `a.b.c.d` in dotted-decimal form.
pub fn format_ipv4(a: u8, b: u8, c: u8, d: u8) -> (r: String)
    ensures
        r@ == ipv4_text(a, b, c, d),
{
    let mut s = String::new();
    push_decimal(&mut s, a as u64);
    push_char(&mut s, '.');
    push_decimal(&mut s, b as u64);
    push_char(&mut s, '.');
    push_decimal(&mut s, c as u64);
    push_char(&mut s, '.');
    push_decimal(&mut s, d as u64);
    assert(s@ =~= ipv4_text(a, b, c, d));
    s
}

/// The position of the first usable address of `s` at or after `i`, or the
/// length of `s` when there is none.
pub open spec fn first_usable_from(s: Seq<IpAddress>, i: int) -> int
    decreases s.len() - i,
{
    if i < 0 || i >= s.len() {
        s.len() as int
    } else if usable(s[i]) {
        i
    } else {
        first_usable_from(s, i + 1)
    }
}

/// The position of the first usable address of `addrs`, if any.
pub fn first_usable(addrs: &Vec<IpAddress>) -> (r: Option<usize>)
    ensures
        match r {
            Some(i) => i == first_usable_from(addrs@, 0) && i < addrs@.len() && usable(addrs@[i as int]),
            None => first_usable_from(addrs@, 0) == addrs@.len(),
        },
{
    let mut i: usize = 0;
    while i < addrs.len()
        invariant
            i <= addrs@.len(),
            first_usable_from(addrs@, 0) == first_usable_from(addrs@, i as int),
        decreases addrs@.len() - i,
    {
        if addrs[i].is_usable() {
            return Some(i);
        }
        i = i + 1;
    }
    None
}

/// The text of a usable address (dotted decimal; only IPv4 addresses are usable).
pub open spec fn address_text(a: IpAddress) -> Seq<char> {
    match a {
        IpAddress::V4(x, y, z, w) => ipv4_text(x, y, z, w),
        IpAddress::V6(..) => Seq::empty(),
    }
}

/// The dotted-decimal text of a usable address.
pub fn format_usable(a: IpAddress) -> (r: String)
    requires
        usable(a),
    ensures
        r@ == address_text(a),
{
    match a {
        IpAddress::V4(x, y, z, w) => format_ipv4(x, y, z, w),
        IpAddress::V6(..) => String::new(),
    }
}

} // verus!
