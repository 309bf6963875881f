use vstd::prelude::*;

use crate::io::text::{chars_of, string_from_chars};

verus! {

/// `core::num::ParseIntError`, carried as the cause of an invalid octet.
#[verifier::external_type_specification]
#[verifier::external_body]
pub struct ExParseIntError(core::num::ParseIntError);

/// `Clone::clone` of `core::num::ParseIntError`, which the derived `Clone` of
/// [`MacParseError`] calls; nothing is claimed of the copy.
pub assume_specification[ <core::num::ParseIntError as Clone>::clone ](
    e: &core::num::ParseIntError,
) -> core::num::ParseIntError;

/// Errors that can occur when parsing a [`MacAddress`] from text.
#[derive(Debug, Clone, PartialEq, Eq)]
pub enum MacParseError {
    /// The input does not have the expected `xx:xx:xx:xx:xx:xx` format.
    InvalidFormat,
    /// One of the octets is not valid hexadecimal.
    InvalidHex(core::num::ParseIntError),
}

/// A 48-bit MAC (Media Access Control) address stored as 6 raw bytes, written
/// `"00:1b:21:ed:39:3e"` in text.
#[derive(Debug, Clone, Copy, PartialEq, Eq, Hash)]
pub struct MacAddress(pub [u8; 6]);

/// Whether a character is a hexadecimal digit.
pub open spec fn is_hex_digit(c: char) -> bool {
    ('0' <= c <= '9') || ('a' <= c <= 'f') || ('A' <= c <= 'F')
}

/// The value of a hexadecimal digit.
pub open spec fn hex_digit_value(c: char) -> int {
    if '0' <= c <= '9' {
        c as int - '0' as int
    } else if 'a' <= c <= 'f' {
        c as int - 'a' as int + 10
    } else {
        c as int - 'A' as int + 10
    }
}

/// The value of a sequence of hexadecimal digits, most significant first.
pub open spec fn hex_value(d: Seq<char>) -> int
    decreases d.len(),
{
    if d.len() == 0 {
        0
    } else {
        hex_value(d.drop_last()) * 16 + hex_digit_value(d.last())
    }
}

/// The digits of an octet's text: the text without one leading `+`.
pub open spec fn octet_digits(p: Seq<char>) -> Seq<char> {
    if p.len() > 0 && p[0] == '+' {
        p.drop_first()
    } else {
        p
    }
}

/// Whether text is a hexadecimal number that fits a byte, as `u8`'s radix-16
/// parser accepts it: an optional `+` and at least one digit.
pub open spec fn hex_octet_ok(p: Seq<char>) -> bool {
    let d = octet_digits(p);
    &&& d.len() > 0
    &&& forall|i: int| 0 <= i < d.len() ==> is_hex_digit(#[trigger] d[i])
    &&& hex_value(d) <= 255
}

/// The byte a valid octet text stands for.
pub open spec fn hex_octet_value(p: Seq<char>) -> u8 {
    hex_value(octet_digits(p)) as u8
}

/// The parts of a text separated by `:` (one more than there are colons).
pub open spec fn split_colon(s: Seq<char>) -> Seq<Seq<char>>
    decreases s.len(),
{
    if s.len() == 0 {
        seq![Seq::empty()]
    } else {
        let rest = split_colon(s.drop_last());
        if s.last() == ':' {
            rest.push(Seq::empty())
        } else {
            rest.update(rest.len() - 1, rest.last().push(s.last()))
        }
    }
}

/// The outcome of reading the parts of a MAC address text.
pub enum MacTextVerdict {
    /// Six valid octets and nothing more.
    Valid,
    /// Too few or too many parts.
    BadFormat,
    /// A part that is not a hexadecimal byte.
    BadHex,
}

/// Reads the parts from the `i`-th on, in order: a missing part is a format
/// error, an invalid part a hex error, and parts left after six a format error.
pub open spec fn mac_verdict(parts: Seq<Seq<char>>, i: int) -> MacTextVerdict
    decreases 6 - i,
{
    if i >= 6 {
        if parts.len() > 6 {
            MacTextVerdict::BadFormat
        } else {
            MacTextVerdict::Valid
        }
    } else if i >= parts.len() {
        MacTextVerdict::BadFormat
    } else if !hex_octet_ok(parts[i]) {
        MacTextVerdict::BadHex
    } else {
        mac_verdict(parts, i + 1)
    }
}

/// The six bytes the first six parts stand for.
pub open spec fn mac_octets(parts: Seq<Seq<char>>) -> Seq<u8> {
    Seq::new(6, |j: int| hex_octet_value(parts[j]))
}

/// The lower-case hexadecimal digit of a value below 16.
pub open spec fn hex_char(n: int) -> char {
    if n < 10 {
        (n + 48) as char
    } else {
        (n + 87) as char
    }
}

/// The two lower-case hexadecimal digits of a byte.
pub open spec fn hex_pair(b: u8) -> Seq<char> {
    seq![hex_char((b / 16) as int), hex_char((b % 16) as int)]
}

/// The text of a MAC address: six lower-case byte pairs joined by `:`.
pub open spec fn mac_text(b: Seq<u8>) -> Seq<char> {
    hex_pair(b[0]) + seq![':'] + hex_pair(b[1]) + seq![':'] + hex_pair(b[2]) + seq![':']
        + hex_pair(b[3]) + seq![':'] + hex_pair(b[4]) + seq![':'] + hex_pair(b[5])
}

/// A text splits into at least one part.
proof fn lemma_split_nonempty(t: Seq<char>)
    ensures
        split_colon(t).len() >= 1,
    decreases t.len(),
{
    if t.len() > 0 {
        lemma_split_nonempty(t.drop_last());
    }
}

/// A text without `:` is a single part.
proof fn lemma_split_no_colon(t: Seq<char>)
    requires
        forall|i: int| 0 <= i < t.len() ==> t[i] != ':',
    ensures
        split_colon(t) == seq![t],
    decreases t.len(),
{
    if t.len() > 0 {
        lemma_split_no_colon(t.drop_last());
        assert(t.drop_last().push(t.last()) =~= t);
        assert(seq![t.drop_last()].update(0, t.drop_last().push(t.last())) =~= seq![t]);
    } else {
        assert(t =~= Seq::<char>::empty());
    }
}

/// Splitting at a `:` splits both sides.
proof fn lemma_split_join(a: Seq<char>, b: Seq<char>)
    ensures
        split_colon(a + seq![':'] + b) == split_colon(a) + split_colon(b),
    decreases b.len(),
{
    let x = a + seq![':'] + b;
    if b.len() == 0 {
        assert(x.drop_last() =~= a);
        assert(split_colon(a).push(Seq::empty()) =~= split_colon(a) + split_colon(b));
    } else {
        let bd = b.drop_last();
        assert(x.drop_last() =~= a + seq![':'] + bd);
        lemma_split_join(a, bd);
        lemma_split_nonempty(bd);
        lemma_split_nonempty(a);
        let ra = split_colon(a);
        let rb = split_colon(bd);
        assert(x.last() == b.last());
        if b.last() == ':' {
            assert((ra + rb).push(Seq::empty()) =~= ra + rb.push(Seq::empty()));
        } else {
            let rest = ra + rb;
            assert(rest.update(rest.len() - 1, rest.last().push(b.last())) =~= ra + rb.update(
                rb.len() - 1,
                rb.last().push(b.last()),
            ));
        }
    }
}

/// The two hexadecimal digits of a byte read back as that byte.
proof fn lemma_hex_pair(x: u8)
    ensures
        hex_octet_ok(hex_pair(x)),
        hex_octet_value(hex_pair(x)) == x,
        forall|i: int| 0 <= i < 2 ==> hex_pair(x)[i] != ':',
{
    let p = hex_pair(x);
    let hi = (x / 16) as int;
    let lo = (x % 16) as int;
    assert(p[0] == hex_char(hi) && p[1] == hex_char(lo));
    assert(p[0] != '+');
    assert(octet_digits(p) == p);
    assert(is_hex_digit(p[0]) && hex_digit_value(p[0]) == hi);
    assert(is_hex_digit(p[1]) && hex_digit_value(p[1]) == lo);
    assert(p.drop_last() =~= seq![p[0]]);
    assert(seq![p[0]].drop_last() =~= Seq::<char>::empty());
    assert(hex_value(Seq::<char>::empty()) == 0);
    assert(hex_value(seq![p[0]]) == hi);
    assert(hex_value(p) == hi * 16 + lo);
}

/// Reading the text of a MAC address gives the address back.
pub proof fn lemma_mac_text_round_trip(b: Seq<u8>)
    requires
        b.len() == 6,
    ensures
        mac_verdict(split_colon(mac_text(b)), 0) == MacTextVerdict::Valid,
        mac_octets(split_colon(mac_text(b))) == b,
{
    let h0 = hex_pair(b[0]);
    let h1 = hex_pair(b[1]);
    let h2 = hex_pair(b[2]);
    let h3 = hex_pair(b[3]);
    let h4 = hex_pair(b[4]);
    let h5 = hex_pair(b[5]);
    lemma_hex_pair(b[0]);
    lemma_hex_pair(b[1]);
    lemma_hex_pair(b[2]);
    lemma_hex_pair(b[3]);
    lemma_hex_pair(b[4]);
    lemma_hex_pair(b[5]);
    lemma_split_no_colon(h0);
    lemma_split_no_colon(h1);
    lemma_split_no_colon(h2);
    lemma_split_no_colon(h3);
    lemma_split_no_colon(h4);
    lemma_split_no_colon(h5);
    let a1 = h0 + seq![':'] + h1;
    let a2 = a1 + seq![':'] + h2;
    let a3 = a2 + seq![':'] + h3;
    let a4 = a3 + seq![':'] + h4;
    let t = a4 + seq![':'] + h5;
    assert(t == mac_text(b));
    lemma_split_join(h0, h1);
    lemma_split_join(a1, h2);
    lemma_split_join(a2, h3);
    lemma_split_join(a3, h4);
    lemma_split_join(a4, h5);
    let parts = split_colon(t);
    assert(parts =~= seq![h0, h1, h2, h3, h4, h5]);
    assert(mac_verdict(parts, 6) == MacTextVerdict::Valid);
    assert(mac_verdict(parts, 5) == MacTextVerdict::Valid);
    assert(mac_verdict(parts, 4) == MacTextVerdict::Valid);
    assert(mac_verdict(parts, 3) == MacTextVerdict::Valid);
    assert(mac_verdict(parts, 2) == MacTextVerdict::Valid);
    assert(mac_verdict(parts, 1) == MacTextVerdict::Valid);
    assert(mac_octets(parts) =~= b);
}

/// The models of a list of character vectors.
pub open spec fn parts_view(v: Seq<Vec<char>>) -> Seq<Seq<char>> {
    Seq::new(v.len(), |i: int| v[i]@)
}

/// Splits characters at every `:`.
fn split_parts(chars: &Vec<char>) -> (r: Vec<Vec<char>>)
    ensures
        parts_view(r@) == split_colon(chars@),
{
    let mut parts: Vec<Vec<char>> = Vec::new();
    let mut current: Vec<char> = Vec::new();
    assert(chars@.subrange(0, 0) =~= Seq::<char>::empty());
    assert(parts_view(parts@).push(current@) =~= split_colon(chars@.subrange(0, 0)));
    let mut i: usize = 0;
    while i < chars.len()
        invariant
            i <= chars@.len(),
            parts_view(parts@).push(current@) == split_colon(chars@.subrange(0, i as int)),
        decreases chars@.len() - i,
    {
        let c = chars[i];
        let ghost before = chars@.subrange(0, i as int);
        let ghost after = chars@.subrange(0, i + 1);
        assert(after.drop_last() =~= before);
        assert(after.last() == c);
        if c == ':' {
            let done = current;
            parts.push(done);
            current = Vec::new();
            assert(parts_view(parts@).push(current@) =~= split_colon(after));
        } else {
            let ghost old_parts = parts@;
            current.push(c);
            assert(parts_view(parts@).push(current@) =~= split_colon(after));
        }
        i += 1;
    }
    assert(chars@.subrange(0, i as int) =~= chars@);
    parts.push(current);
    assert(parts_view(parts@) =~= split_colon(chars@));
    parts
}

/// Parses the text of one octet with `u8::from_str_radix` in base 16.
///
/// The contract states what the standard library documents: the text must be
/// an optional `+` followed by hexadecimal digits whose value fits a byte.
/// Which kind of parse error comes back is not stated.
#[verifier::external_body]
fn parse_hex_octet(part: &Vec<char>) -> (r: Result<u8, core::num::ParseIntError>)
    ensures
        r is Ok <==> hex_octet_ok(part@),
        r matches Ok(v) ==> v == hex_octet_value(part@),
{
    let text: String = part.iter().collect();
    u8::from_str_radix(&text, 16)
}

/// The lower-case hexadecimal digit of a value below 16.
fn hex_digit_char(n: u8) -> (r: char)
    requires
        n < 16,
    ensures
        r == hex_char(n as int),
{
    if n < 10 {
        (n + 48) as char
    } else {
        (n + 87) as char
    }
}

impl MacAddress {
    /// Whether two addresses hold the same six bytes.
    pub fn same_as(&self, other: &MacAddress) -> (r: bool)
        ensures
            r == (*self == *other),
    {
        let mut i: usize = 0;
        while i < 6
            invariant
                i <= 6,
                forall|j: int| 0 <= j < i ==> self.0[j] == other.0[j],
            decreases 6 - i,
        {
            if self.0[i] != other.0[i] {
                return false;
            }
            i += 1;
        }
        assert(self.0@ =~= other.0@);
        assert(self.0 == other.0);
        true
    }

    /// Parses a MAC address from text in the form `"xx:xx:xx:xx:xx:xx"`.
    ///
    /// The text is split at every `:`; the parts are read in order, each as a
    /// hexadecimal byte. A missing part, or parts left after the sixth, give
    /// [`MacParseError::InvalidFormat`]; a part that is not a hexadecimal byte
    /// gives [`MacParseError::InvalidHex`].
    pub fn parse(s: &str) -> (r: Result<MacAddress, MacParseError>)
        ensures
            match mac_verdict(split_colon(s@), 0) {
                MacTextVerdict::Valid => r matches Ok(m) && m.0@ == mac_octets(split_colon(s@)),
                MacTextVerdict::BadFormat => r == Err::<MacAddress, MacParseError>(
                    MacParseError::InvalidFormat,
                ),
                MacTextVerdict::BadHex => r matches Err(MacParseError::InvalidHex(_)),
            },
    {
        let chars = chars_of(s);
        let parts = split_parts(&chars);
        let ghost pv = split_colon(s@);
        let mut octets: Vec<u8> = Vec::new();
        let mut i: usize = 0;
        while i < 6
            invariant
                i <= 6,
                pv == split_colon(s@),
                pv == parts_view(parts@),
                mac_verdict(pv, 0) == mac_verdict(pv, i as int),
                i <= pv.len(),
                octets@.len() == i,
                forall|j: int| 0 <= j < i ==> octets@[j] == hex_octet_value(#[trigger] pv[j]),
            decreases 6 - i,
        {
            if i >= parts.len() {
                assert(mac_verdict(pv, i as int) == MacTextVerdict::BadFormat);
                return Err(MacParseError::InvalidFormat);
            }
            assert(parts@[i as int]@ == pv[i as int]);
            match parse_hex_octet(&parts[i]) {
                Ok(v) => octets.push(v),
                Err(e) => return Err(MacParseError::InvalidHex(e)),
            }
            i += 1;
        }
        if parts.len() > 6 {
            return Err(MacParseError::InvalidFormat);
        }
        let m = MacAddress([octets[0], octets[1], octets[2], octets[3], octets[4], octets[5]]);
        assert(m.0@ =~= mac_octets(pv));
        Ok(m)
    }

    /// The text of this address: six lower-case hexadecimal byte pairs joined
    /// by `:`.
    pub fn to_string(&self) -> (r: String)
        ensures
            r@ == mac_text(self.0@),
    {
        let mut chars: Vec<char> = Vec::new();
        let mut i: usize = 0;
        while i < 6
            invariant
                i <= 6,
                chars@.len() == 3 * i,
                forall|j: int|
                    0 <= j < i ==> #[trigger] chars@[3 * j] == hex_char((self.0@[j] / 16) as int),
                forall|j: int|
                    0 <= j < i ==> #[trigger] chars@[3 * j + 1] == hex_char((self.0@[j] % 16) as int),
                forall|j: int| 0 <= j < i ==> #[trigger] chars@[3 * j + 2] == ':',
            decreases 6 - i,
        {
            let b = self.0[i];
            chars.push(hex_digit_char(b / 16));
            chars.push(hex_digit_char(b % 16));
            chars.push(':');
            i += 1;
        }
        chars.pop();
        let ghost t = mac_text(self.0@);
        assert(chars@ =~= t) by {
            assert(t.len() == 17);
            assert forall|k: int| 0 <= k < 17 implies chars@[k] == t[k] by {
                let j = k / 3;
                assert(0 <= j < 6);
                if k % 3 == 2 {
                    assert(chars@[3 * j + 2] == ':');
                } else if k % 3 == 0 {
                    assert(chars@[3 * j] == hex_char((self.0@[j] / 16) as int));
                } else {
                    assert(chars@[3 * j + 1] == hex_char((self.0@[j] % 16) as int));
                }
            }
        }
        string_from_chars(&chars)
    }
}

impl core::str::FromStr for MacAddress {
    type Err = MacParseError;

    /// Parses a MAC address from a string in the form `"xx:xx:xx:xx:xx:xx"`;
    /// see [`MacAddress::parse`].
    fn from_str(s: &str) -> (r: Result<Self, Self::Err>)
        ensures
            match mac_verdict(split_colon(s@), 0) {
                MacTextVerdict::Valid => r matches Ok(m) && m.0@ == mac_octets(split_colon(s@)),
                MacTextVerdict::BadFormat => r == Err::<MacAddress, MacParseError>(
                    MacParseError::InvalidFormat,
                ),
                MacTextVerdict::BadHex => r matches Err(MacParseError::InvalidHex(_)),
            },
    {
        MacAddress::parse(s)
    }
}

} // verus!
