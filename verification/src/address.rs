//! IPv4 addresses and endpoints as plain values, and their dotted-decimal
//! spelling.

use vstd::prelude::*;

verus! {

/// Whether `c` is one of the ASCII digits `0` to `9`.
pub open spec fn is_digit(c: char) -> bool {
    '0' <= c <= '9'
}

/// The ASCII digit that stands for `d`, for `0 <= d <= 9`.
pub open spec fn digit_char(d: int) -> char {
    (d + 48) as char
}

/// The decimal spelling of `n` without leading zeros, for `0 <= n <= 999`.
pub open spec fn decimal(n: int) -> Seq<char> {
    if n < 10 {
        seq![digit_char(n)]
    } else if n < 100 {
        seq![digit_char(n / 10), digit_char(n % 10)]
    } else {
        seq![digit_char(n / 100), digit_char((n / 10) % 10), digit_char(n % 10)]
    }
}

/// The length of the longest dotted-decimal spelling of an IPv4 address.
pub const MAX_DOTTED_LEN: usize = 15;

/// An IPv4 address, one field for each octet in network order.
#[derive(Clone, Copy, Debug, PartialEq, Eq, Structural)]
pub struct Ipv4Address {
    pub a: u8,
    pub b: u8,
    pub c: u8,
    pub d: u8,
}

/// An IPv4 address together with a UDP or TCP port.
#[derive(Clone, Copy, Debug, PartialEq, Eq, Structural)]
pub struct Endpoint {
    pub address: Ipv4Address,
    pub port: u16,
}

/// Whether the characters of `s` from `start` up to `end` spell the octet `v`
/// in decimal, without leading zeros, and no further digit follows them.
pub open spec fn octet_at(s: Seq<char>, start: int, v: u8, end: int) -> bool {
    &&& 0 <= start < end <= s.len()
    &&& s.subrange(start, end) == decimal(v as int)
    &&& (end == s.len() || !is_digit(s[end]))
}

/// The number that one to three digits spell.
pub open spec fn spelled(digits: Seq<char>) -> int {
    if digits.len() == 1 {
        digits[0] as int - 48
    } else if digits.len() == 2 {
        10 * (digits[0] as int - 48) + (digits[1] as int - 48)
    } else {
        100 * (digits[0] as int - 48) + 10 * (digits[1] as int - 48) + (digits[2] as int - 48)
    }
}

/// The decimal spelling of a number below one thousand has one to three
/// characters, all of them digits, starts with a zero only where it is `0`,
/// and spells that number.
pub proof fn lemma_decimal_digits(n: int)
    requires
        0 <= n <= 999,
    ensures
        1 <= decimal(n).len() <= 3,
        forall|i: int| 0 <= i < decimal(n).len() ==> is_digit(#[trigger] decimal(n)[i]),
        decimal(n).len() > 1 ==> decimal(n)[0] != '0',
        spelled(decimal(n)) == n,
{
}

/// Different numbers have different decimal spellings.
pub proof fn lemma_decimal_injective(m: int, n: int)
    requires
        0 <= m <= 999,
        0 <= n <= 999,
        decimal(m) == decimal(n),
    ensures
        m == n,
{
    lemma_decimal_digits(m);
    lemma_decimal_digits(n);
}

/// At one position of a text at most one octet is spelled, and it ends at
/// one place only.
pub proof fn lemma_octet_at_unique(s: Seq<char>, start: int, v: u8, end: int, w: u8, stop: int)
    requires
        octet_at(s, start, v, end),
        octet_at(s, start, w, stop),
    ensures
        v == w,
        end == stop,
{
    lemma_decimal_digits(v as int);
    lemma_decimal_digits(w as int);
    if end < stop {
        assert(s[end] == s.subrange(start, stop)[end - start]);
    } else if stop < end {
        assert(s[stop] == s.subrange(start, end)[stop - start]);
    }
    lemma_decimal_injective(v as int, w as int);
}

/// The value of an ASCII digit, or `None` for any other character.
fn digit_value(c: char) -> (r: Option<u8>)
    ensures
        match r {
            Some(d) => d <= 9 && c == digit_char(d as int),
            None => !is_digit(c),
        },
{
    if '0' <= c && c <= '9' {
        Some(c as u8 - 48)
    } else {
        None
    }
}

/// Whether the character at `at` exists and is a digit; its value if so.
fn digit_at(text: &str, len: usize, at: usize) -> (r: Option<u8>)
    requires
        len == text@.len(),
    ensures
        match r {
            Some(d) => at < len && d <= 9 && text@[at as int] == digit_char(d as int),
            None => at >= len || !is_digit(text@[at as int]),
        },
{
    if at < len {
        digit_value(text.get_char(at))
    } else {
        None
    }
}

/// Reads the octet spelled at `start`, and says where its spelling ends.
fn read_octet(text: &str, len: usize, start: usize) -> (r: Option<(u8, usize)>)
    requires
        len == text@.len(),
        start <= len <= MAX_DOTTED_LEN,
    ensures
        match r {
            Some((v, end)) => octet_at(text@, start as int, v, end as int),
            None => forall|v: u8, end: int| !octet_at(text@, start as int, v, end),
        },
{
    let ghost s = text@;
    proof {
        assert forall|v: u8, end: int| octet_at(s, start as int, v, end) implies {
            &&& 1 <= end - start <= 3
            &&& forall|i: int| start <= i < end ==> is_digit(s[i])
            &&& end - start > 1 ==> s[start as int] != '0'
            &&& s.subrange(start as int, end) == decimal(v as int)
        } by {
            lemma_decimal_digits(v as int);
            assert forall|i: int| start <= i < end implies is_digit(s[i]) by {
                assert(s[i] == s.subrange(start as int, end)[i - start]);
            }
            assert(s[start as int] == s.subrange(start as int, end)[0]);
        }
    }
    let d0: u8 = match digit_at(text, len, start) {
        Some(d) => d,
        None => {
            return None;
        },
    };
    let d1: u8 = match digit_at(text, len, start + 1) {
        Some(d) => d,
        None => {
            assert(s.subrange(start as int, start + 1) =~= decimal(d0 as int));
            return Some((d0, start + 1));
        },
    };
    if d0 == 0 {
        return None;
    }
    let d2: u8 = match digit_at(text, len, start + 2) {
        Some(d) => d,
        None => {
            let v: u8 = d0 * 10 + d1;
            assert(s.subrange(start as int, start + 2) =~= decimal(v as int));
            return Some((v, start + 2));
        },
    };
    if digit_at(text, len, start + 3).is_some() {
        return None;
    }
    let wide: u16 = (d0 as u16) * 100 + (d1 as u16) * 10 + (d2 as u16);
    if wide > 255 {
        proof {
            assert forall|v: u8, end: int| !octet_at(s, start as int, v, end) by {
                if octet_at(s, start as int, v, end) {
                    assert(end == start + 3);
                    lemma_decimal_digits(v as int);
                    let t = s.subrange(start as int, end);
                    assert(t[0] == s[start as int]);
                    assert(t[1] == s[start + 1]);
                    assert(t[2] == s[start + 2]);
                    lemma_decimal_injective(v as int, wide as int);
                }
            }
        }
        return None;
    }
    let v: u8 = wide as u8;
    assert(s.subrange(start as int, start + 3) =~= decimal(v as int));
    Some((v, start + 3))
}

/// Whether the character at `at` exists and is a dot.
fn dot_at(text: &str, len: usize, at: usize) -> (r: bool)
    requires
        len == text@.len(),
    ensures
        r == (at < len && text@[at as int] == '.'),
{
    at < len && text.get_char(at) == '.'
}

/// Where the spelling of each octet ends in the dotted-decimal notation of an
/// address: after the first, the second and the third octet.
pub open spec fn dotted_ends(address: Ipv4Address) -> (int, int, int) {
    let first = decimal(address.a as int).len() as int;
    let second = first + 1 + decimal(address.b as int).len();
    let third = second + 1 + decimal(address.c as int).len();
    (first, second, third)
}

/// The dotted-decimal notation of an address spells its four octets one after
/// the other, with one dot after each of the first three and nothing after
/// the fourth, in at most fifteen characters.
pub proof fn lemma_dotted_layout(address: Ipv4Address)
    ensures
        ({
            let s = address.dotted();
            let (first, second, third) = dotted_ends(address);
            &&& s.len() <= MAX_DOTTED_LEN
            &&& octet_at(s, 0, address.a, first)
            &&& s[first] == '.'
            &&& octet_at(s, first + 1, address.b, second)
            &&& s[second] == '.'
            &&& octet_at(s, second + 1, address.c, third)
            &&& s[third] == '.'
            &&& octet_at(s, third + 1, address.d, s.len() as int)
        }),
{
    let s = address.dotted();
    let (first, second, third) = dotted_ends(address);
    lemma_decimal_digits(address.a as int);
    lemma_decimal_digits(address.b as int);
    lemma_decimal_digits(address.c as int);
    lemma_decimal_digits(address.d as int);
    assert(s.subrange(0, first) =~= decimal(address.a as int));
    assert(s.subrange(first + 1, second) =~= decimal(address.b as int));
    assert(s.subrange(second + 1, third) =~= decimal(address.c as int));
    assert(s.subrange(third + 1, s.len() as int) =~= decimal(address.d as int));
}

/// A text that spells four octets one after the other, with one dot after
/// each of the first three and nothing after the fourth, is the
/// dotted-decimal notation of the address with these octets.
pub proof fn lemma_layout_dotted(s: Seq<char>, address: Ipv4Address, first: int, second: int, third: int)
    requires
        octet_at(s, 0, address.a, first),
        s[first] == '.',
        octet_at(s, first + 1, address.b, second),
        s[second] == '.',
        octet_at(s, second + 1, address.c, third),
        s[third] == '.',
        octet_at(s, third + 1, address.d, s.len() as int),
    ensures
        s == address.dotted(),
{
    assert(s =~= s.subrange(0, first) + seq!['.'] + s.subrange(first + 1, second) + seq!['.']
        + s.subrange(second + 1, third) + seq!['.'] + s.subrange(third + 1, s.len() as int));
}

/// Different addresses have different dotted-decimal notations.
pub proof fn lemma_dotted_injective(x: Ipv4Address, y: Ipv4Address)
    requires
        x.dotted() == y.dotted(),
    ensures
        x == y,
{
    let s = x.dotted();
    lemma_dotted_layout(x);
    lemma_dotted_layout(y);
    let (x1, x2, x3) = dotted_ends(x);
    let (y1, y2, y3) = dotted_ends(y);
    lemma_octet_at_unique(s, 0, x.a, x1, y.a, y1);
    lemma_octet_at_unique(s, x1 + 1, x.b, x2, y.b, y2);
    lemma_octet_at_unique(s, x2 + 1, x.c, x3, y.c, y3);
    lemma_octet_at_unique(s, x3 + 1, x.d, s.len() as int, y.d, s.len() as int);
}

/// Reading the dotted-decimal notation of an address gives the address
/// back.
pub proof fn lemma_from_dotted(address: Ipv4Address)
    ensures
        Ipv4Address::from_dotted(address.dotted()) == Some(address),
{
    let chosen = choose|x: Ipv4Address| address.dotted() == #[trigger] x.dotted();
    lemma_dotted_injective(chosen, address);
}

impl Ipv4Address {
    /// The address in dotted-decimal notation: the four octets in decimal,
    /// without leading zeros, separated by dots.
    pub open spec fn dotted(self) -> Seq<char> {
        decimal(self.a as int) + seq!['.'] + decimal(self.b as int) + seq!['.'] + decimal(
            self.c as int,
        ) + seq!['.'] + decimal(self.d as int)
    }

    /// The address that `text` is the dotted-decimal notation of, if it is
    /// that of any.
    pub open spec fn from_dotted(text: Seq<char>) -> Option<Ipv4Address> {
        if exists|address: Ipv4Address| text == #[trigger] address.dotted() {
            Some(choose|address: Ipv4Address| text == #[trigger] address.dotted())
        } else {
            None
        }
    }

    /// The address with the given octets.
    pub fn new(a: u8, b: u8, c: u8, d: u8) -> (address: Ipv4Address)
        ensures
            address == (Ipv4Address { a, b, c, d }),
    {
        Ipv4Address { a, b, c, d }
    }

    /// The address with the given octets, taken in network order.
    pub fn from_octets(octets: [u8; 4]) -> (address: Ipv4Address)
        ensures
            address == (Ipv4Address { a: octets[0], b: octets[1], c: octets[2], d: octets[3] }),
    {
        Ipv4Address { a: octets[0], b: octets[1], c: octets[2], d: octets[3] }
    }

    /// Reads an address in dotted-decimal notation: four decimal numbers
    /// from 0 to 255, without leading zeros, separated by dots. Any other
    /// text is refused.
    pub fn parse(text: &str) -> (r: Option<Ipv4Address>)
        ensures
            match r {
                Some(address) => text@ == address.dotted(),
                None => forall|address: Ipv4Address| text@ != #[trigger] address.dotted(),
            },
            r == Self::from_dotted(text@),
    {
        let r = Self::read_dotted(text);
        proof {
            if let Some(address) = r {
                lemma_from_dotted(address);
            }
        }
        r
    }

    /// Reads the four octets and the three dots between them, from left to
    /// right.
    fn read_dotted(text: &str) -> (r: Option<Ipv4Address>)
        ensures
            match r {
                Some(address) => text@ == address.dotted(),
                None => forall|address: Ipv4Address| text@ != #[trigger] address.dotted(),
            },
    {
        let ghost s = text@;
        proof {
            assert forall|x: Ipv4Address| s == x.dotted() implies ({
                let (first, second, third) = dotted_ends(x);
                &&& s.len() <= MAX_DOTTED_LEN
                &&& octet_at(s, 0, x.a, first)
                &&& s[first] == '.'
                &&& octet_at(s, first + 1, x.b, second)
                &&& s[second] == '.'
                &&& octet_at(s, second + 1, x.c, third)
                &&& s[third] == '.'
                &&& octet_at(s, third + 1, x.d, s.len() as int)
            }) by {
                lemma_dotted_layout(x);
            }
        }
        let len = text.unicode_len();
        if len > MAX_DOTTED_LEN {
            return None;
        }
        let (a, first) = match read_octet(text, len, 0) {
            Some(found) => found,
            None => {
                return None;
            },
        };
        proof {
            assert forall|x: Ipv4Address| s == x.dotted() implies x.a == a && dotted_ends(x).0
                == first by {
                lemma_octet_at_unique(s, 0, a, first as int, x.a, dotted_ends(x).0);
            }
        }
        if !dot_at(text, len, first) {
            return None;
        }
        let (b, second) = match read_octet(text, len, first + 1) {
            Some(found) => found,
            None => {
                return None;
            },
        };
        proof {
            assert forall|x: Ipv4Address| s == x.dotted() implies x.b == b && dotted_ends(x).1
                == second by {
                lemma_octet_at_unique(s, first + 1, b, second as int, x.b, dotted_ends(x).1);
            }
        }
        if !dot_at(text, len, second) {
            return None;
        }
        let (c, third) = match read_octet(text, len, second + 1) {
            Some(found) => found,
            None => {
                return None;
            },
        };
        proof {
            assert forall|x: Ipv4Address| s == x.dotted() implies x.c == c && dotted_ends(x).2
                == third by {
                lemma_octet_at_unique(s, second + 1, c, third as int, x.c, dotted_ends(x).2);
            }
        }
        if !dot_at(text, len, third) {
            return None;
        }
        let (d, end) = match read_octet(text, len, third + 1) {
            Some(found) => found,
            None => {
                return None;
            },
        };
        proof {
            assert forall|x: Ipv4Address| s == x.dotted() implies x.d == d && s.len() == end by {
                lemma_octet_at_unique(s, third + 1, d, end as int, x.d, s.len() as int);
            }
        }
        if end != len {
            return None;
        }
        let address = Ipv4Address { a, b, c, d };
        proof {
            lemma_layout_dotted(s, address, first as int, second as int, third as int);
        }
        Some(address)
    }

    /// The four octets in network order.
    pub fn octets(&self) -> (octets: [u8; 4])
        ensures
            octets@ == seq![self.a, self.b, self.c, self.d],
    {
        let octets: [u8; 4] = [self.a, self.b, self.c, self.d];
        assert(octets@ =~= seq![self.a, self.b, self.c, self.d]);
        octets
    }
}

} // verus!
