//! IPv4 addresses and their dotted-decimal text.

use crate::decimal::{decimal, lemma_decimal_len_of_byte, push_decimal};
use vstd::prelude::*;
use vstd::string::StringExecFns;

verus! {

/// An IPv4 address, held as its four octets in network order.
#[derive(Clone, Copy, Debug, PartialEq, Eq, Structural)]
pub struct Ipv4Addr {
    pub a: u8,
    pub b: u8,
    pub c: u8,
    pub d: u8,
}

/// The number of characters in the longest address text, that of
/// `255.255.255.255`.
pub const LONGEST_TEXT_LEN: usize = 15;

/// The dotted-decimal text of the address `a.b.c.d`.
pub open spec fn dotted(addr: Ipv4Addr) -> Seq<char> {
    decimal(addr.a as nat) + seq!['.'] + decimal(addr.b as nat) + seq!['.'] + decimal(
        addr.c as nat,
    ) + seq!['.'] + decimal(addr.d as nat)
}

impl Ipv4Addr {
    /// The address `a.b.c.d`.
    pub fn new(a: u8, b: u8, c: u8, d: u8) -> (addr: Ipv4Addr)
        ensures
            addr == (Ipv4Addr { a, b, c, d }),
    {
        Ipv4Addr { a, b, c, d }
    }

    /// The address `0.0.0.0`, which stands for "no address yet".
    pub open spec fn spec_unspecified() -> Ipv4Addr {
        Ipv4Addr { a: 0, b: 0, c: 0, d: 0 }
    }

    /// The address `0.0.0.0`.
    #[verifier::when_used_as_spec(spec_unspecified)]
    pub fn unspecified() -> (addr: Ipv4Addr)
        ensures
            addr == Ipv4Addr::spec_unspecified(),
    {
        Ipv4Addr { a: 0, b: 0, c: 0, d: 0 }
    }

    /// Whether this is `0.0.0.0`.
    pub fn is_unspecified(&self) -> (r: bool)
        ensures
            r == (*self == Ipv4Addr::spec_unspecified()),
    {
        self.a == 0 && self.b == 0 && self.c == 0 && self.d == 0
    }

    /// The four octets, first to last.
    pub fn octets(&self) -> (o: [u8; 4])
        ensures
            o@ == seq![self.a, self.b, self.c, self.d],
    {
        let o = [self.a, self.b, self.c, self.d];
        assert(o@ =~= seq![self.a, self.b, self.c, self.d]);
        o
    }

    /// The dotted-decimal text of the address. It is never longer than
    /// the text of `255.255.255.255`.
    pub fn to_string(&self) -> (s: String)
        ensures
            s@ == dotted(*self),
            7 <= s@.len() <= LONGEST_TEXT_LEN,
    {
        proof {
            reveal_strlit(".");
            lemma_dotted_len(*self);
        }
        let mut s = String::new();
        push_decimal(&mut s, self.a as u64);
        s.append(".");
        push_decimal(&mut s, self.b as u64);
        s.append(".");
        push_decimal(&mut s, self.c as u64);
        s.append(".");
        push_decimal(&mut s, self.d as u64);
        assert(s@ =~= dotted(*self));
        s
    }
}

/// The text of an address holds four numerals of one to three digits and
/// three dots.
pub proof fn lemma_dotted_len(addr: Ipv4Addr)
    ensures
        7 <= dotted(addr).len() <= LONGEST_TEXT_LEN,
{
    lemma_decimal_len_of_byte(addr.a as nat);
    lemma_decimal_len_of_byte(addr.b as nat);
    lemma_decimal_len_of_byte(addr.c as nat);
    lemma_decimal_len_of_byte(addr.d as nat);
}

} // verus!
