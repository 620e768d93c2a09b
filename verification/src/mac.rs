//! The 6-byte hardware (MAC) address value type.

use vstd::prelude::*;
use vstd::string::StrSliceExecFns;
use vstd::string::StringExecFns;

verus! {

/// Why a textual address was rejected.
#[derive(Debug, Clone, Copy, PartialEq, Eq, Structural)]
pub enum ParseMACError {
    /// A field is not a two-digit hexadecimal byte.
    ParseIntError,
    /// The text does not have exactly six colon-separated fields.
    FormatError,
}

impl ParseMACError {
    /// The one-line description of the rejection.
    pub fn message(&self) -> (r: String)
        ensures
            *self is ParseIntError ==> r@ == "Failed to parse integer for MAC"@,
            *self is FormatError ==> r@ == "MAC has invalid format"@,
    {
        match self {
            ParseMACError::ParseIntError => String::from_str("Failed to parse integer for MAC"),
            ParseMACError::FormatError => String::from_str("MAC has invalid format"),
        }
    }
}

/// The hexadecimal value of one character, if it has one.
pub open spec fn spec_hex_value(c: char) -> Option<u8> {
    match c {
        '0' => Some(0u8),
        '1' => Some(1u8),
        '2' => Some(2u8),
        '3' => Some(3u8),
        '4' => Some(4u8),
        '5' => Some(5u8),
        '6' => Some(6u8),
        '7' => Some(7u8),
        '8' => Some(8u8),
        '9' => Some(9u8),
        'a' => Some(10u8),
        'b' => Some(11u8),
        'c' => Some(12u8),
        'd' => Some(13u8),
        'e' => Some(14u8),
        'f' => Some(15u8),
        'A' => Some(10u8),
        'B' => Some(11u8),
        'C' => Some(12u8),
        'D' => Some(13u8),
        'E' => Some(14u8),
        'F' => Some(15u8),
        _ => None,
    }
}

pub open spec fn is_hex_digit(c: char) -> bool {
    spec_hex_value(c) is Some
}

/// The lowercase hexadecimal digit for a value below sixteen.
pub open spec fn hex_char_of(v: u8) -> char {
    if v == 0 {
        '0'
    } else if v == 1 {
        '1'
    } else if v == 2 {
        '2'
    } else if v == 3 {
        '3'
    } else if v == 4 {
        '4'
    } else if v == 5 {
        '5'
    } else if v == 6 {
        '6'
    } else if v == 7 {
        '7'
    } else if v == 8 {
        '8'
    } else if v == 9 {
        '9'
    } else if v == 10 {
        'a'
    } else if v == 11 {
        'b'
    } else if v == 12 {
        'c'
    } else if v == 13 {
        'd'
    } else if v == 14 {
        'e'
    } else {
        'f'
    }
}

/// The two lowercase hexadecimal digits of one byte.
pub open spec fn byte_text(b: u8) -> Seq<char> {
    seq![hex_char_of(b / 16), hex_char_of(b % 16)]
}

/// The printable form of a six-byte address: six two-digit lowercase
/// hexadecimal groups joined by colons.
pub open spec fn mac_text(bytes: Seq<u8>) -> Seq<char>
    recommends
        bytes.len() == 6,
{
    byte_text(bytes[0]) + seq![':'] + byte_text(bytes[1]) + seq![':'] + byte_text(bytes[2])
        + seq![':'] + byte_text(bytes[3]) + seq![':'] + byte_text(bytes[4]) + seq![':'] + byte_text(
        bytes[5],
    )
}

/// How many colons stand in `s` at or after position `i`.
pub open spec fn colons_from(s: Seq<char>, i: int) -> nat
    decreases s.len() - i,
{
    if i < 0 || i >= s.len() {
        0
    } else {
        (if s[i] == ':' {
            1nat
        } else {
            0nat
        }) + colons_from(s, i + 1)
    }
}

pub open spec fn count_colons(s: Seq<char>) -> nat {
    colons_from(s, 0)
}

/// Whether the text has the exact shape of an address: seventeen
/// characters, colons at the five separator positions, and a two-digit
/// hexadecimal field everywhere else.
pub open spec fn mac_shape_ok(s: Seq<char>) -> bool {
    &&& s.len() == 17
    &&& s[2] == ':'
    &&& s[5] == ':'
    &&& s[8] == ':'
    &&& s[11] == ':'
    &&& s[14] == ':'
    &&& is_hex_digit(s[0]) && is_hex_digit(s[1])
    &&& is_hex_digit(s[3]) && is_hex_digit(s[4])
    &&& is_hex_digit(s[6]) && is_hex_digit(s[7])
    &&& is_hex_digit(s[9]) && is_hex_digit(s[10])
    &&& is_hex_digit(s[12]) && is_hex_digit(s[13])
    &&& is_hex_digit(s[15]) && is_hex_digit(s[16])
}

/// The value of the two-digit field that starts at position `p`.
pub open spec fn pair_value(s: Seq<char>, p: int) -> u8
    recommends
        0 <= p && p + 1 < s.len(),
        is_hex_digit(s[p]),
        is_hex_digit(s[p + 1]),
{
    (spec_hex_value(s[p]).unwrap() * 16 + spec_hex_value(s[p + 1]).unwrap()) as u8
}

/// The byte encoded by field `k` of a well-shaped address text.
pub open spec fn parsed_byte(s: Seq<char>, k: int) -> u8 {
    pair_value(s, 3 * k)
}

/// What parsing an address text yields.
///
/// A text without exactly six colon-separated fields (that is, exactly
/// five colons) is a format error: a short text is rejected outright
/// rather than read as an address with zero-filled trailing bytes. A text
/// with six fields of which one is not a two-digit hexadecimal byte fails
/// as a number-parse error.
pub open spec fn spec_parse(s: Seq<char>) -> Result<Seq<u8>, ParseMACError> {
    if count_colons(s) != 5 {
        Err(ParseMACError::FormatError)
    } else if !mac_shape_ok(s) {
        Err(ParseMACError::ParseIntError)
    } else {
        Ok(Seq::new(6, |k: int| parsed_byte(s, k)))
    }
}

/// A 48-bit Ethernet hardware address: exactly six raw bytes.
///
/// The bytes are an opaque string, not a multi-byte integer: there are no
/// endianness concerns. The value is freely copied; nothing is owned.
#[derive(Debug, Clone, Copy)]
pub struct MAC {
    data: [u8; 6],
}

impl View for MAC {
    type V = Seq<u8>;

    closed spec fn view(&self) -> Seq<u8> {
        self.data@
    }
}

impl PartialEq for MAC {
    /// Byte-wise exact match; used to detect that a freshly computed
    /// address equals the current one.
    fn eq(&self, other: &MAC) -> (r: bool) {
        let r = self.data[0] == other.data[0] && self.data[1] == other.data[1] && self.data[2]
            == other.data[2] && self.data[3] == other.data[3] && self.data[4] == other.data[4]
            && self.data[5] == other.data[5];
        proof {
            if r {
                assert(self@ =~= other@);
            }
        }
        r
    }
}

impl Eq for MAC {

}

impl vstd::std_specs::cmp::PartialEqSpecImpl for MAC {
    open spec fn obeys_eq_spec() -> bool {
        true
    }

    open spec fn eq_spec(&self, other: &MAC) -> bool {
        self@ == other@
    }
}

impl MAC {
    /// The all-zero address.
    pub fn new() -> (r: Self)
        ensures
            r@ == Seq::new(6, |i: int| 0u8),
    {
        let r = MAC { data: [0u8; 6] };
        proof {
            assert(r@ =~= Seq::new(6, |i: int| 0u8));
        }
        r
    }

    /// Wrap six raw bytes as an address.
    pub fn from_bytes(bytes: [u8; 6]) -> (r: Self)
        ensures
            r@ == bytes@,
    {
        MAC { data: bytes }
    }

    /// The device-specific suffix: the last three bytes.
    pub fn get_ending(&self) -> (r: [u8; 3])
        ensures
            r@ == self@.skip(3),
    {
        let r = [self.data[3], self.data[4], self.data[5]];
        proof {
            assert(r@ =~= self@.skip(3));
        }
        r
    }

    /// Replace the device-specific suffix (the last three bytes), leaving
    /// the three vendor bytes untouched.
    pub fn set_ending(&mut self, ending: &[u8; 3])
        ensures
            final(self)@ == old(self)@.take(3) + ending@,
            final(self)@.take(3) == old(self)@.take(3),
            final(self)@.skip(3) == ending@,
    {
        self.data = [self.data[0], self.data[1], self.data[2], ending[0], ending[1], ending[2]];
        proof {
            assert(self@ =~= old(self)@.take(3) + ending@);
            assert(self@.take(3) =~= old(self)@.take(3));
            assert(self@.skip(3) =~= ending@);
        }
    }
}

/// The hexadecimal value of one character, if it has one.
fn hex_value(c: char) -> (r: Option<u8>)
    ensures
        r == spec_hex_value(c),
{
    if c == '0' {
        Some(0)
    } else if c == '1' {
        Some(1)
    } else if c == '2' {
        Some(2)
    } else if c == '3' {
        Some(3)
    } else if c == '4' {
        Some(4)
    } else if c == '5' {
        Some(5)
    } else if c == '6' {
        Some(6)
    } else if c == '7' {
        Some(7)
    } else if c == '8' {
        Some(8)
    } else if c == '9' {
        Some(9)
    } else if c == 'a' || c == 'A' {
        Some(10)
    } else if c == 'b' || c == 'B' {
        Some(11)
    } else if c == 'c' || c == 'C' {
        Some(12)
    } else if c == 'd' || c == 'D' {
        Some(13)
    } else if c == 'e' || c == 'E' {
        Some(14)
    } else if c == 'f' || c == 'F' {
        Some(15)
    } else {
        None
    }
}

/// The two-character field of `s` that starts at position `p`, read as a
/// hexadecimal byte.
fn parse_field(s: &str, p: usize) -> (r: Option<u8>)
    requires
        s@.len() == 17,
        p + 1 < 17,
    ensures
        match r {
            Some(b) => is_hex_digit(s@[p as int]) && is_hex_digit(s@[p as int + 1]) && b
                == pair_value(s@, p as int),
            None => !(is_hex_digit(s@[p as int]) && is_hex_digit(s@[p as int + 1])),
        },
{
    let hi = hex_value(s.get_char(p));
    let lo = hex_value(s.get_char(p + 1));
    match (hi, lo) {
        (Some(h), Some(l)) => Some(h * 16 + l),
        _ => None,
    }
}

/// The lowercase hexadecimal digit for a value below sixteen, as text.
fn hex_str(v: u8) -> (r: &'static str)
    requires
        v < 16,
    ensures
        r@.len() == 1,
        r@[0] == hex_char_of(v),
{
    if v == 0 {
        proof {
            reveal_strlit("0");
        }
        "0"
    } else if v == 1 {
        proof {
            reveal_strlit("1");
        }
        "1"
    } else if v == 2 {
        proof {
            reveal_strlit("2");
        }
        "2"
    } else if v == 3 {
        proof {
            reveal_strlit("3");
        }
        "3"
    } else if v == 4 {
        proof {
            reveal_strlit("4");
        }
        "4"
    } else if v == 5 {
        proof {
            reveal_strlit("5");
        }
        "5"
    } else if v == 6 {
        proof {
            reveal_strlit("6");
        }
        "6"
    } else if v == 7 {
        proof {
            reveal_strlit("7");
        }
        "7"
    } else if v == 8 {
        proof {
            reveal_strlit("8");
        }
        "8"
    } else if v == 9 {
        proof {
            reveal_strlit("9");
        }
        "9"
    } else if v == 10 {
        proof {
            reveal_strlit("a");
        }
        "a"
    } else if v == 11 {
        proof {
            reveal_strlit("b");
        }
        "b"
    } else if v == 12 {
        proof {
            reveal_strlit("c");
        }
        "c"
    } else if v == 13 {
        proof {
            reveal_strlit("d");
        }
        "d"
    } else if v == 14 {
        proof {
            reveal_strlit("e");
        }
        "e"
    } else {
        proof {
            reveal_strlit("f");
        }
        "f"
    }
}

impl MAC {
    /// Parse the colon-hex form of an address: exactly six fields split on
    /// `:`, each a two-digit hexadecimal byte, case-insensitive.
    pub fn parse(s: &str) -> (r: Result<MAC, ParseMACError>)
        ensures
            match r {
                Ok(m) => spec_parse(s@) == Ok::<Seq<u8>, ParseMACError>(m@),
                Err(e) => spec_parse(s@) == Err::<Seq<u8>, ParseMACError>(e),
            },
    {
        let n = s.unicode_len();
        let mut colons: usize = 0;
        let mut i: usize = 0;
        while i < n
            invariant
                n == s@.len(),
                i <= n,
                colons <= i,
                colons + colons_from(s@, i as int) == count_colons(s@),
            decreases n - i,
        {
            if s.get_char(i) == ':' {
                colons = colons + 1;
            }
            i = i + 1;
        }
        assert(colons_from(s@, n as int) == 0);
        if colons != 5 {
            return Err(ParseMACError::FormatError);
        }
        if n != 17 {
            assert(!mac_shape_ok(s@));
            return Err(ParseMACError::ParseIntError);
        }
        if s.get_char(2) != ':' || s.get_char(5) != ':' || s.get_char(8) != ':' || s.get_char(11)
            != ':' || s.get_char(14) != ':' {
            return Err(ParseMACError::ParseIntError);
        }
        let f0 = parse_field(s, 0);
        let f1 = parse_field(s, 3);
        let f2 = parse_field(s, 6);
        let f3 = parse_field(s, 9);
        let f4 = parse_field(s, 12);
        let f5 = parse_field(s, 15);
        match (f0, f1, f2, f3, f4, f5) {
            (Some(b0), Some(b1), Some(b2), Some(b3), Some(b4), Some(b5)) => {
                let m = MAC { data: [b0, b1, b2, b3, b4, b5] };
                proof {
                    assert(mac_shape_ok(s@));
                    assert(m@ =~= Seq::new(6, |k: int| parsed_byte(s@, k)));
                }
                Ok(m)
            },
            _ => {
                proof {
                    assert(!mac_shape_ok(s@)) by {
                        if f0 is None {
                            assert(!(is_hex_digit(s@[0int]) && is_hex_digit(s@[1int])));
                        } else if f1 is None {
                            assert(!(is_hex_digit(s@[3int]) && is_hex_digit(s@[4int])));
                        } else if f2 is None {
                            assert(!(is_hex_digit(s@[6int]) && is_hex_digit(s@[7int])));
                        } else if f3 is None {
                            assert(!(is_hex_digit(s@[9int]) && is_hex_digit(s@[10int])));
                        } else if f4 is None {
                            assert(!(is_hex_digit(s@[12int]) && is_hex_digit(s@[13int])));
                        } else {
                            assert(!(is_hex_digit(s@[15int]) && is_hex_digit(s@[16int])));
                        }
                    }
                }
                Err(ParseMACError::ParseIntError)
            },
        }
    }

    /// The printable form: six two-digit lowercase hexadecimal groups
    /// joined by `:`. The inverse of [`MAC::parse`].
    pub fn format(&self) -> (r: String)
        ensures
            r@ == mac_text(self@),
    {
        proof {
            reveal_strlit(":");
        }
        let mut out = String::new();
        out.append(hex_str(self.data[0] / 16));
        out.append(hex_str(self.data[0] % 16));
        out.append(":");
        out.append(hex_str(self.data[1] / 16));
        out.append(hex_str(self.data[1] % 16));
        out.append(":");
        out.append(hex_str(self.data[2] / 16));
        out.append(hex_str(self.data[2] % 16));
        out.append(":");
        out.append(hex_str(self.data[3] / 16));
        out.append(hex_str(self.data[3] % 16));
        out.append(":");
        out.append(hex_str(self.data[4] / 16));
        out.append(hex_str(self.data[4] % 16));
        out.append(":");
        out.append(hex_str(self.data[5] / 16));
        out.append(hex_str(self.data[5] % 16));
        proof {
            assert(out@ =~= mac_text(self@));
        }
        out
    }
}

impl MAC {
    /// Decode the kernel's raw address field: a fixed fourteen-byte signed
    /// buffer of which only the first six bytes carry the address. The
    /// trailing eight bytes are ignored.
    pub fn from_raw_data(data: &[i8; 14]) -> (m: MAC)
        ensures
            m@ == Seq::new(6, |i: int| data@[i] as u8),
    {
        let m = MAC {
            data: [
                #[verifier::truncate]
                (data[0] as u8),
                #[verifier::truncate]
                (data[1] as u8),
                #[verifier::truncate]
                (data[2] as u8),
                #[verifier::truncate]
                (data[3] as u8),
                #[verifier::truncate]
                (data[4] as u8),
                #[verifier::truncate]
                (data[5] as u8),
            ],
        };
        proof {
            assert(m@ =~= Seq::new(6, |i: int| data@[i] as u8));
        }
        m
    }

    /// Encode the address as the kernel's raw address field: the six
    /// address bytes first, the remaining eight bytes zero-filled.
    pub fn to_raw_data(&self) -> (r: [i8; 14])
        ensures
            forall|i: int| 0 <= i < 6 ==> r@[i] == self@[i] as i8,
            forall|i: int| 6 <= i < 14 ==> r@[i] == 0,
    {
        [
            #[verifier::truncate]
            (self.data[0] as i8),
            #[verifier::truncate]
            (self.data[1] as i8),
            #[verifier::truncate]
            (self.data[2] as i8),
            #[verifier::truncate]
            (self.data[3] as i8),
            #[verifier::truncate]
            (self.data[4] as i8),
            #[verifier::truncate]
            (self.data[5] as i8),
            0,
            0,
            0,
            0,
            0,
            0,
            0,
            0,
        ]
    }

    /// The first six bytes of a kernel-supplied buffer, as an address;
    /// nothing if the buffer is shorter than an address.
    pub fn from_slice(bytes: &[u8]) -> (r: Option<MAC>)
        ensures
            match r {
                Some(m) => bytes@.len() >= 6 && m@ == bytes@.take(6),
                None => bytes@.len() < 6,
            },
    {
        if bytes.len() < 6 {
            return None;
        }
        let m = MAC { data: [bytes[0], bytes[1], bytes[2], bytes[3], bytes[4], bytes[5]] };
        proof {
            assert(m@ =~= bytes@.take(6));
        }
        Some(m)
    }
}

/// Encoding an address into the kernel's raw address field and decoding
/// that field yields the address unchanged.
pub proof fn lemma_raw_data_roundtrip(m: MAC, raw: [i8; 14])
    requires
        forall|i: int| 0 <= i < 6 ==> raw@[i] == m@[i] as i8,
    ensures
        Seq::new(6, |i: int| raw@[i] as u8) == m@,
{
    assert forall|i: int| 0 <= i < 6 implies (m@[i] as i8) as u8 == m@[i] by {
        let b = m@[i];
        assert((b as i8) as u8 == b) by (bit_vector);
    }
    assert(Seq::new(6, |i: int| raw@[i] as u8) =~= m@);
}

/// The first byte of a freshly drawn address, after the generation policy:
/// the multicast bit and the locally-administered bit are cleared, and
/// unless the address is to pass for a burned-in one, the
/// locally-administered bit is then set.
pub open spec fn policy_first_byte(drawn: u8, bia: bool) -> u8 {
    if bia {
        drawn & 0xfc
    } else {
        (drawn & 0xfc) | 0x02
    }
}

/// A freshly drawn address after the generation policy: the first byte is
/// adjusted, the other five are kept as drawn.
pub open spec fn random_policy(drawn: Seq<u8>, bia: bool) -> Seq<u8>
    recommends
        drawn.len() == 6,
{
    drawn.update(0, policy_first_byte(drawn[0], bia))
}

impl MAC {
    /// Turn six bytes drawn from an entropy source into a valid address:
    /// clear the multicast and locally-administered bits of the first
    /// byte, and set the locally-administered bit again unless the address
    /// is to pass for a burned-in (vendor-assigned) one.
    pub fn from_random_bytes(drawn: &[u8; 6], bia: bool) -> (m: MAC)
        ensures
            m@ == random_policy(drawn@, bia),
    {
        let first: u8 = if bia {
            drawn[0] & 0xfc
        } else {
            (drawn[0] & 0xfc) | 0x02
        };
        let m = MAC { data: [first, drawn[1], drawn[2], drawn[3], drawn[4], drawn[5]] };
        proof {
            assert(m@ =~= random_policy(drawn@, bia));
        }
        m
    }
}

/// The generation policy always clears the multicast bit; it sets the
/// locally-administered bit unless a burned-in address was asked for, in
/// which case that bit too is cleared; the five remaining bytes are kept
/// exactly as drawn.
pub proof fn lemma_random_policy_bits(drawn: Seq<u8>, bia: bool)
    requires
        drawn.len() == 6,
    ensures
        random_policy(drawn, bia).len() == 6,
        random_policy(drawn, bia)[0] & 0x01 == 0,
        !bia ==> random_policy(drawn, bia)[0] & 0x02 == 0x02,
        bia ==> random_policy(drawn, bia)[0] & 0x02 == 0,
        forall|i: int| 1 <= i < 6 ==> random_policy(drawn, bia)[i] == drawn[i],
{
    let x = drawn[0];
    assert((x & 0xfc) & 0x01 == 0) by (bit_vector);
    assert(((x & 0xfc) | 0x02) & 0x01 == 0) by (bit_vector);
    assert(((x & 0xfc) | 0x02) & 0x02 == 0x02) by (bit_vector);
    assert((x & 0xfc) & 0x02 == 0) by (bit_vector);
}

/// Formatting a six-byte address and parsing the text back yields exactly
/// the bytes that were formatted; in particular, formatting again yields
/// the same text.
pub proof fn lemma_format_then_parse(bytes: Seq<u8>)
    requires
        bytes.len() == 6,
    ensures
        spec_parse(mac_text(bytes)) == Ok::<Seq<u8>, ParseMACError>(bytes),
        spec_parse(mac_text(bytes)) matches Ok(b) && mac_text(b) == mac_text(bytes),
{
    let t = mac_text(bytes);
    let flat = seq![
        hex_char_of(bytes[0] / 16),
        hex_char_of(bytes[0] % 16),
        ':',
        hex_char_of(bytes[1] / 16),
        hex_char_of(bytes[1] % 16),
        ':',
        hex_char_of(bytes[2] / 16),
        hex_char_of(bytes[2] % 16),
        ':',
        hex_char_of(bytes[3] / 16),
        hex_char_of(bytes[3] % 16),
        ':',
        hex_char_of(bytes[4] / 16),
        hex_char_of(bytes[4] % 16),
        ':',
        hex_char_of(bytes[5] / 16),
        hex_char_of(bytes[5] % 16),
    ];
    assert(t =~= flat);
    lemma_hex_char_value(bytes[0] / 16);
    lemma_hex_char_value(bytes[0] % 16);
    lemma_hex_char_value(bytes[1] / 16);
    lemma_hex_char_value(bytes[1] % 16);
    lemma_hex_char_value(bytes[2] / 16);
    lemma_hex_char_value(bytes[2] % 16);
    lemma_hex_char_value(bytes[3] / 16);
    lemma_hex_char_value(bytes[3] % 16);
    lemma_hex_char_value(bytes[4] / 16);
    lemma_hex_char_value(bytes[4] % 16);
    lemma_hex_char_value(bytes[5] / 16);
    lemma_hex_char_value(bytes[5] % 16);
    assert(count_colons(t) == 5) by {
        reveal_with_fuel(colons_from, 19);
    }
    assert(mac_shape_ok(t));
    assert(spec_parse(t) matches Ok(b) && b =~= bytes);
}

/// A hexadecimal digit character encodes the value it was made from, and
/// a colon is not a hexadecimal digit.
pub proof fn lemma_hex_char_value(v: u8)
    requires
        v < 16,
    ensures
        spec_hex_value(hex_char_of(v)) == Some(v),
        hex_char_of(v) != ':',
{
}

/// The suffix read back is exactly the suffix set, and the vendor prefix is
/// untouched by setting a suffix.
pub proof fn lemma_set_then_get_ending(m0: MAC, m1: MAC, ending: [u8; 3])
    requires
        m1@ == m0@.take(3) + ending@,
    ensures
        m1@.skip(3) == ending@,
        m1@.take(3) == m0@.take(3),
{
    assert(m1@.skip(3) =~= ending@);
    assert(m1@.take(3) =~= m0@.take(3));
}

} // verus!
