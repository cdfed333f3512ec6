//! Link-layer and network-layer addresses and their textual forms.

use vstd::prelude::*;

verus! {

/// A 48-bit hardware address, first octet on the wire first.
#[derive(Clone, Copy, Debug, PartialEq, Eq, Structural)]
pub struct MacAddr(pub u8, pub u8, pub u8, pub u8, pub u8, pub u8);

/// An IPv4 address, first octet on the wire first.
#[derive(Clone, Copy, Debug, PartialEq, Eq, Structural)]
pub struct Ipv4Addr(pub u8, pub u8, pub u8, pub u8);

/// The digit that stands for `d` in base sixteen (and, below ten, in base ten).
pub open spec fn digit(d: int) -> char
    recommends
        0 <= d < 16,
{
    "0123456789abcdef"@[d]
}

/// `n` in decimal notation, without leading zeros.
pub open spec fn decimal_text(n: nat) -> Seq<char>
    decreases n,
{
    if n < 10 {
        seq![digit(n as int)]
    } else {
        decimal_text(n / 10).push(digit((n % 10) as int))
    }
}

/// An octet as two lower-case hexadecimal digits.
pub open spec fn hex_pair(octet: u8) -> Seq<char> {
    seq![digit(octet as int / 16), digit(octet as int % 16)]
}

/// Six colon-separated hexadecimal pairs, as in `aa:bb:cc:dd:ee:ff`.
pub open spec fn mac_text(mac: MacAddr) -> Seq<char> {
    hex_pair(mac.0) + ":"@ + hex_pair(mac.1) + ":"@ + hex_pair(mac.2) + ":"@ + hex_pair(mac.3)
        + ":"@ + hex_pair(mac.4) + ":"@ + hex_pair(mac.5)
}

/// Dotted decimal notation, as in `10.0.0.1`.
pub open spec fn ipv4_text(addr: Ipv4Addr) -> Seq<char> {
    decimal_text(addr.0 as nat) + "."@ + decimal_text(addr.1 as nat) + "."@ + decimal_text(
        addr.2 as nat,
    ) + "."@ + decimal_text(addr.3 as nat)
}

/// Decimal notation is never empty, and an octet takes at most three digits.
pub proof fn lemma_decimal_text_len(n: nat)
    ensures
        decimal_text(n).len() >= 1,
        n < 256 ==> decimal_text(n).len() <= 3,
{
    reveal_with_fuel(decimal_text, 3);
    if n >= 100 {
        assert(decimal_text(n) == decimal_text(n / 10).push(digit((n % 10) as int)));
    }
}

/// The text of a hardware address has seventeen characters; that of an IPv4
/// address has between seven and fifteen. Neither is ever empty.
pub proof fn lemma_address_text_len(mac: MacAddr, addr: Ipv4Addr)
    ensures
        mac_text(mac).len() == 17,
        7 <= ipv4_text(addr).len() <= 15,
{
    reveal_strlit(":");
    reveal_strlit(".");
    lemma_decimal_text_len(addr.0 as nat);
    lemma_decimal_text_len(addr.1 as nat);
    lemma_decimal_text_len(addr.2 as nat);
    lemma_decimal_text_len(addr.3 as nat);
}

/// The one-character string for a digit value.
fn digit_str(d: u8) -> (s: &'static str)
    requires
        d < 16,
    ensures
        s@ == seq![digit(d as int)],
{
    proof {
        reveal_strlit("0123456789abcdef");
        reveal_strlit("0");
        reveal_strlit("1");
        reveal_strlit("2");
        reveal_strlit("3");
        reveal_strlit("4");
        reveal_strlit("5");
        reveal_strlit("6");
        reveal_strlit("7");
        reveal_strlit("8");
        reveal_strlit("9");
        reveal_strlit("a");
        reveal_strlit("b");
        reveal_strlit("c");
        reveal_strlit("d");
        reveal_strlit("e");
        reveal_strlit("f");
    }
    let s: &'static str = match d {
        0 => "0",
        1 => "1",
        2 => "2",
        3 => "3",
        4 => "4",
        5 => "5",
        6 => "6",
        7 => "7",
        8 => "8",
        9 => "9",
        10 => "a",
        11 => "b",
        12 => "c",
        13 => "d",
        14 => "e",
        _ => "f",
    };
    assert(s@ =~= seq![digit(d as int)]);
    s
}

/// Appends the decimal notation of `n` to `out`.
pub fn push_decimal(out: &mut String, n: u64)
    ensures
        final(out)@ == old(out)@ + decimal_text(n as nat),
    decreases n,
{
    if n < 10 {
        out.append(digit_str(n as u8));
    } else {
        push_decimal(out, n / 10);
        out.append(digit_str((n % 10) as u8));
        assert(out@ =~= old(out)@ + decimal_text(n as nat));
    }
}

/// Appends two hexadecimal digits for `octet` to `out`.
fn push_hex_pair(out: &mut String, octet: u8)
    ensures
        final(out)@ == old(out)@ + hex_pair(octet),
{
    out.append(digit_str(octet / 16));
    out.append(digit_str(octet % 16));
    assert(out@ =~= old(out)@ + hex_pair(octet));
}

impl MacAddr {
    /// Appends the colon-separated hexadecimal form to `out`.
    pub fn push_text(&self, out: &mut String)
        ensures
            final(out)@ == old(out)@ + mac_text(*self),
    {
        push_hex_pair(out, self.0);
        out.append(":");
        push_hex_pair(out, self.1);
        out.append(":");
        push_hex_pair(out, self.2);
        out.append(":");
        push_hex_pair(out, self.3);
        out.append(":");
        push_hex_pair(out, self.4);
        out.append(":");
        push_hex_pair(out, self.5);
        assert(out@ =~= old(out)@ + mac_text(*self));
    }

    /// The colon-separated hexadecimal form.
    pub fn to_text(&self) -> (text: String)
        ensures
            text@ == mac_text(*self),
    {
        let mut text = String::new();
        self.push_text(&mut text);
        assert(text@ =~= mac_text(*self));
        text
    }
}

impl Ipv4Addr {
    /// Appends the dotted decimal form to `out`.
    pub fn push_text(&self, out: &mut String)
        ensures
            final(out)@ == old(out)@ + ipv4_text(*self),
    {
        push_decimal(out, self.0 as u64);
        out.append(".");
        push_decimal(out, self.1 as u64);
        out.append(".");
        push_decimal(out, self.2 as u64);
        out.append(".");
        push_decimal(out, self.3 as u64);
        assert(out@ =~= old(out)@ + ipv4_text(*self));
    }

    /// The dotted decimal form.
    pub fn to_text(&self) -> (text: String)
        ensures
            text@ == ipv4_text(*self),
    {
        let mut text = String::new();
        self.push_text(&mut text);
        assert(text@ =~= ipv4_text(*self));
        text
    }
}

} // verus!
