//! Hardware addresses for the virtual interface.

use crate::entropy::random_octets;
use vstd::prelude::*;
use vstd::string::StringExecFns;

verus! {

/// Whether the first octet of a hardware address marks it as locally
/// administered (bit `0x02` set) and unicast (bit `0x01` clear).
pub open spec fn is_local_unicast(first: u8) -> bool {
    first & 0x03 == 0x02
}

/// The lower-case hexadecimal digit for `n`, for `0 <= n <= 15`.
pub open spec fn hex_digit(n: int) -> char {
    if n < 10 {
        (n + 48) as char
    } else {
        (n + 87) as char
    }
}

/// The two lower-case hexadecimal digits of an octet.
pub open spec fn hex_pair(octet: u8) -> Seq<char> {
    seq![hex_digit(octet as int / 16), hex_digit(octet as int % 16)]
}

/// The usual notation of six octets: each in two lower-case hexadecimal
/// digits, with colons in between.
pub open spec fn colon_hex(octets: Seq<u8>) -> Seq<char>
    recommends
        octets.len() == 6,
{
    hex_pair(octets[0]) + seq![':'] + hex_pair(octets[1]) + seq![':'] + hex_pair(octets[2])
        + seq![':'] + hex_pair(octets[3]) + seq![':'] + hex_pair(octets[4]) + seq![':']
        + hex_pair(octets[5])
}

/// The lower-case hexadecimal digit for `n`, as a text of one character.
fn hex_digit_text(n: u8) -> (text: &'static str)
    requires
        n <= 15,
    ensures
        text@ == seq![hex_digit(n as int)],
{
    proof {
        reveal_strlit("0");
        reveal_strlit("1");
        reveal_strlit("2");
        reveal_strlit("3");
        reveal_strlit("4");
        reveal_strlit("5");
        reveal_strlit("6");
        reveal_strlit("7");
        reveal_strlit("8");
        reveal_strlit("9");
        reveal_strlit("a");
        reveal_strlit("b");
        reveal_strlit("c");
        reveal_strlit("d");
        reveal_strlit("e");
        reveal_strlit("f");
    }
    let text = match n {
        0 => "0",
        1 => "1",
        2 => "2",
        3 => "3",
        4 => "4",
        5 => "5",
        6 => "6",
        7 => "7",
        8 => "8",
        9 => "9",
        10 => "a",
        11 => "b",
        12 => "c",
        13 => "d",
        14 => "e",
        _ => "f",
    };
    assert(text@ =~= seq![hex_digit(n as int)]);
    text
}

/// Appends the two hexadecimal digits of `octet` to `text`.
fn push_hex_pair(text: &mut String, octet: u8)
    ensures
        final(text)@ == old(text)@ + hex_pair(octet),
{
    text.append(hex_digit_text(octet / 16));
    text.append(hex_digit_text(octet % 16));
    assert(text@ =~= old(text)@ + hex_pair(octet));
}

/// A six-octet hardware address that is locally administered and unicast.
#[derive(Debug)]
pub struct MacAddress([u8; 6]);

impl MacAddress {
    /// The six octets, in transmission order.
    pub closed spec fn view(&self) -> Seq<u8> {
        self.0@
    }

    #[verifier::type_invariant]
    spec fn well_formed(&self) -> bool {
        is_local_unicast(self.0[0])
    }

    /// Turns six arbitrary octets into an address: the locally-administered
    /// bit of the first octet is set, its multicast bit is cleared, and
    /// everything else is kept.
    pub fn from_entropy(octets: [u8; 6]) -> (mac: MacAddress)
        ensures
            mac@.len() == 6,
            mac@[0] == (octets[0] | 0x02) & 0xfe,
            forall|i: int| 1 <= i < 6 ==> mac@[i] == octets[i],
            is_local_unicast(mac@[0]),
    {
        let mut octets = octets;
        let first: u8 = octets[0];
        let marked: u8 = (first | 0x02) & 0xfe;
        assert(is_local_unicast(marked)) by (bit_vector)
            requires
                marked == (first | 0x02) & 0xfe,
        ;
        octets[0] = marked;
        MacAddress(octets)
    }

    /// A fresh address from the process-wide entropy source.
    pub fn new() -> (mac: MacAddress)
        ensures
            mac@.len() == 6,
            is_local_unicast(mac@[0]),
    {
        MacAddress::from_entropy(random_octets())
    }

    /// The address in its usual notation, such as `02:00:5e:10:00:01`.
    pub fn to_text(&self) -> (text: String)
        ensures
            text@ == colon_hex(self@),
    {
        proof {
            reveal_strlit(":");
        }
        let mut text = String::new();
        push_hex_pair(&mut text, self.0[0]);
        text.append(":");
        push_hex_pair(&mut text, self.0[1]);
        text.append(":");
        push_hex_pair(&mut text, self.0[2]);
        text.append(":");
        push_hex_pair(&mut text, self.0[3]);
        text.append(":");
        push_hex_pair(&mut text, self.0[4]);
        text.append(":");
        push_hex_pair(&mut text, self.0[5]);
        assert(text@ =~= colon_hex(self@));
        text
    }

    /// The six octets of the address.
    pub fn octets(&self) -> (octets: [u8; 6])
        ensures
            octets@ == self@,
            is_local_unicast(octets[0]),
    {
        proof {
            use_type_invariant(self);
        }
        self.0
    }
}

} // verus!
