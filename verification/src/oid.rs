//! Store-native document identifiers.
//!
//! Externally an identifier is a plain string of 24 hexadecimal digits;
//! internally it is 12 bytes. Both directions of the translation are
//! implemented here and proved inverse to each other: a freshly encoded
//! identifier always parses back to the same bytes, and a malformed string
//! is rejected before it can reach a store operation.

use vstd::prelude::*;

verus! {

/// Whether `c` is an ASCII hexadecimal digit (either case).
pub open spec fn is_hex_digit(c: char) -> bool {
    ('0' <= c && c <= '9') || ('a' <= c && c <= 'f') || ('A' <= c && c <= 'F')
}

/// The numeric value of a hexadecimal digit.
pub open spec fn hex_val(c: char) -> u8 {
    if '0' <= c && c <= '9' {
        (c as u8 - '0' as u8) as u8
    } else if 'a' <= c && c <= 'f' {
        (c as u8 - 'a' as u8 + 10) as u8
    } else {
        (c as u8 - 'A' as u8 + 10) as u8
    }
}

/// The lowercase hexadecimal digit for a value below 16.
pub open spec fn hex_char(n: u8) -> char {
    if n < 10 {
        (('0' as u8 + n) as u8) as char
    } else {
        (('a' as u8 + n - 10) as u8) as char
    }
}

/// Whether `s` is a well-formed identifier string: exactly 24 hexadecimal
/// digits.
pub open spec fn is_oid_string(s: Seq<char>) -> bool {
    s.len() == 24 && forall|i: int| 0 <= i < s.len() ==> is_hex_digit(#[trigger] s[i])
}

/// The bytes denoted by a sequence of hexadecimal digit pairs.
pub open spec fn hex_decode(s: Seq<char>) -> Seq<u8> {
    Seq::new((s.len() / 2) as nat, |i: int| (hex_val(s[2 * i]) * 16 + hex_val(s[2 * i + 1])) as u8)
}

/// The lowercase hexadecimal rendering of a byte sequence.
pub open spec fn hex_encode(b: Seq<u8>) -> Seq<char> {
    Seq::new(
        (b.len() * 2) as nat,
        |i: int|
            if i % 2 == 0 {
                hex_char(b[i / 2] / 16)
            } else {
                hex_char(b[i / 2] % 16)
            },
    )
}

/// A store-native document identifier: 12 bytes, rendered to callers as 24
/// lowercase hexadecimal digits.
#[derive(Debug)]
pub struct ObjectId {
    bytes: Vec<u8>,
}

impl View for ObjectId {
    type V = Seq<u8>;

    closed spec fn view(&self) -> Seq<u8> {
        self.bytes@
    }
}

impl ObjectId {
    /// Well-formed identifiers hold exactly 12 bytes.
    pub open spec fn wf(&self) -> bool {
        self@.len() == 12
    }

    /// Parses a caller-facing identifier string. Returns `Some` exactly when
    /// the string is 24 hexadecimal digits; anything else is rejected.
    pub fn parse_str(s: &String) -> (r: Option<ObjectId>)
        ensures
            r is Some <==> is_oid_string(s@),
            r matches Some(o) ==> o@ == hex_decode(s@) && o.wf(),
    {
        let n = s.as_str().unicode_len();
        if n != 24 {
            return None;
        }
        let mut bytes: Vec<u8> = Vec::new();
        let mut i: usize = 0;
        while i < 12
            invariant
                0 <= i <= 12,
                s@.len() == 24,
                bytes@.len() == i,
                forall|j: int| 0 <= j < 2 * i ==> is_hex_digit(#[trigger] s@[j]),
                forall|j: int|
                    0 <= j < i ==> bytes@[j] == (hex_val(s@[2 * j]) * 16 + hex_val(
                        s@[2 * j + 1],
                    )) as u8,
            decreases 12 - i,
        {
            let c1 = s.as_str().get_char(2 * i);
            let c2 = s.as_str().get_char(2 * i + 1);
            let v1 = match hex_digit_value(c1) {
                Some(v) => v,
                None => { return None; },
            };
            let v2 = match hex_digit_value(c2) {
                Some(v) => v,
                None => { return None; },
            };
            bytes.push(v1 * 16 + v2);
            i = i + 1;
        }
        let o = ObjectId { bytes };
        proof {
            assert forall|j: int| 0 <= j < 24 implies is_hex_digit(#[trigger] s@[j]) by {
                assert(is_hex_digit(s@[2 * (j / 2)]));
                assert(is_hex_digit(s@[2 * (j / 2) + 1]));
            }
            assert(o@ =~= hex_decode(s@));
        }
        Some(o)
    }

    /// Renders the identifier as its caller-facing 24-digit lowercase
    /// hexadecimal string.
    pub fn to_hex(&self) -> (r: String)
        ensures
            r@ == hex_encode(self@),
    {
        let mut ascii: Vec<u8> = Vec::new();
        let mut i: usize = 0;
        let n = self.bytes.len();
        while i < n
            invariant
                0 <= i <= n,
                n == self@.len(),
                ascii@.len() == 2 * i,
                forall|j: int| 0 <= j < 2 * i ==> ascii@[j] < 0x80,
                forall|j: int| 0 <= j < 2 * i ==> #[trigger] ascii@[j] as char == hex_encode(
                    self@,
                )[j],
            decreases n - i,
        {
            let b = self.bytes[i];
            let hi = hex_digit_ascii(b / 16);
            let lo = hex_digit_ascii(b % 16);
            ascii.push(hi);
            ascii.push(lo);
            i = i + 1;
        }
        let ghost av = ascii@;
        let r = ascii_to_string(ascii);
        proof {
            assert forall|j: int| 0 <= j < r@.len() implies r@[j] == hex_encode(self@)[j] by {
                assert(r@[j] == av[j] as char);
                assert(av[j] as char == hex_encode(self@)[j]);
            }
            assert(r@ =~= hex_encode(self@));
        }
        r
    }

    /// The identifier whose last eight bytes are the little-endian bytes of
    /// `n` (the first four are zero). Distinct counters give distinct
    /// identifiers.
    pub open spec fn of_counter(n: u64) -> Seq<u8> {
        seq![
            0u8,
            0u8,
            0u8,
            0u8,
            (n >> 0u64) as u8,
            (n >> 8u64) as u8,
            (n >> 16u64) as u8,
            (n >> 24u64) as u8,
            (n >> 32u64) as u8,
            (n >> 40u64) as u8,
            (n >> 48u64) as u8,
            (n >> 56u64) as u8,
        ]
    }

    /// Builds the identifier assigned to the `n`-th created document.
    pub fn from_counter(n: u64) -> (r: ObjectId)
        ensures
            r@ == Self::of_counter(n),
            r.wf(),
    {
        let mut bytes: Vec<u8> = Vec::new();
        bytes.push(0);
        bytes.push(0);
        bytes.push(0);
        bytes.push(0);
        bytes.push((n >> 0u64) as u8);
        bytes.push((n >> 8u64) as u8);
        bytes.push((n >> 16u64) as u8);
        bytes.push((n >> 24u64) as u8);
        bytes.push((n >> 32u64) as u8);
        bytes.push((n >> 40u64) as u8);
        bytes.push((n >> 48u64) as u8);
        bytes.push((n >> 56u64) as u8);
        let r = ObjectId { bytes };
        proof {
            assert(r@ =~= Self::of_counter(n));
        }
        r
    }

    /// Deep equality of identifiers.
    pub fn eq_bytes(&self, other: &ObjectId) -> (r: bool)
        ensures
            r == (self@ == other@),
    {
        if self.bytes.len() != other.bytes.len() {
            return false;
        }
        let n = self.bytes.len();
        let mut i: usize = 0;
        while i < n
            invariant
                0 <= i <= n,
                n == self@.len() == other@.len(),
                forall|j: int| 0 <= j < i ==> self@[j] == other@[j],
            decreases n - i,
        {
            if self.bytes[i] != other.bytes[i] {
                return false;
            }
            i = i + 1;
        }
        proof {
            assert(self@ =~= other@);
        }
        true
    }

    /// Deep copy.
    pub fn duplicate(&self) -> (r: ObjectId)
        ensures
            r@ == self@,
    {
        let mut bytes: Vec<u8> = Vec::new();
        let n = self.bytes.len();
        let mut i: usize = 0;
        while i < n
            invariant
                0 <= i <= n,
                n == self@.len(),
                bytes@.len() == i,
                forall|j: int| 0 <= j < i ==> bytes@[j] == self@[j],
            decreases n - i,
        {
            bytes.push(self.bytes[i]);
            i = i + 1;
        }
        let r = ObjectId { bytes };
        proof {
            assert(r@ =~= self@);
        }
        r
    }
}

/// The numeric value of a hexadecimal digit character, or `None` for any
/// other character.
fn hex_digit_value(c: char) -> (r: Option<u8>)
    ensures
        r is Some <==> is_hex_digit(c),
        r matches Some(v) ==> v == hex_val(c) && v < 16,
{
    if '0' <= c && c <= '9' {
        Some(c as u8 - '0' as u8)
    } else if 'a' <= c && c <= 'f' {
        Some(c as u8 - 'a' as u8 + 10)
    } else if 'A' <= c && c <= 'F' {
        Some(c as u8 - 'A' as u8 + 10)
    } else {
        None
    }
}

/// The ASCII code of the lowercase hexadecimal digit for a value below 16.
fn hex_digit_ascii(n: u8) -> (r: u8)
    requires
        n < 16,
    ensures
        r as char == hex_char(n),
        r < 0x80,
{
    if n < 10 {
        '0' as u8 + n
    } else {
        'a' as u8 + n - 10
    }
}

/// Relies on `String::from_utf8`: a vector of ASCII bytes is valid UTF-8 and
/// decodes to the characters with those code points.
#[verifier::external_body]
fn ascii_to_string(v: Vec<u8>) -> (r: String)
    requires
        forall|i: int| 0 <= i < v@.len() ==> v@[i] < 0x80,
    ensures
        r@.len() == v@.len(),
        forall|i: int| 0 <= i < v@.len() ==> r@[i] == #[trigger] v@[i] as char,
{
    String::from_utf8(v).unwrap_or_default()
}

/// Encoding an identifier and parsing the result always yields the original
/// bytes, and the encoded form is always accepted by the parser.
pub proof fn lemma_hex_round_trip(b: Seq<u8>)
    requires
        b.len() == 12,
    ensures
        is_oid_string(hex_encode(b)),
        hex_decode(hex_encode(b)) == b,
{
    let s = hex_encode(b);
    assert forall|i: int| 0 <= i < s.len() implies is_hex_digit(#[trigger] s[i]) by {
        let v = if i % 2 == 0 {
            b[i / 2] / 16
        } else {
            b[i / 2] % 16
        };
        assert(v < 16);
    }
    assert forall|i: int| 0 <= i < 12 implies hex_decode(s)[i] == b[i] by {
        let hi = b[i] / 16;
        let lo = b[i] % 16;
        assert(hi < 16 && lo < 16);
        assert(s[2 * i] == hex_char(hi));
        assert(s[2 * i + 1] == hex_char(lo));
        assert(hex_val(hex_char(hi)) == hi);
        assert(hex_val(hex_char(lo)) == lo);
        assert(hex_val(s[2 * i]) * 16 + hex_val(s[2 * i + 1]) == b[i]);
    }
    assert(hex_decode(s) =~= b);
}

/// Distinct creation counters give distinct identifiers.
pub proof fn lemma_of_counter_injective(a: u64, b: u64)
    requires
        ObjectId::of_counter(a) == ObjectId::of_counter(b),
    ensures
        a == b,
{
    assert(ObjectId::of_counter(a)[4] == ObjectId::of_counter(b)[4]);
    assert(ObjectId::of_counter(a)[5] == ObjectId::of_counter(b)[5]);
    assert(ObjectId::of_counter(a)[6] == ObjectId::of_counter(b)[6]);
    assert(ObjectId::of_counter(a)[7] == ObjectId::of_counter(b)[7]);
    assert(ObjectId::of_counter(a)[8] == ObjectId::of_counter(b)[8]);
    assert(ObjectId::of_counter(a)[9] == ObjectId::of_counter(b)[9]);
    assert(ObjectId::of_counter(a)[10] == ObjectId::of_counter(b)[10]);
    assert(ObjectId::of_counter(a)[11] == ObjectId::of_counter(b)[11]);
    assert((a >> 0u64) as u8 == (b >> 0u64) as u8);
    assert((a >> 8u64) as u8 == (b >> 8u64) as u8);
    assert((a >> 16u64) as u8 == (b >> 16u64) as u8);
    assert((a >> 24u64) as u8 == (b >> 24u64) as u8);
    assert((a >> 32u64) as u8 == (b >> 32u64) as u8);
    assert((a >> 40u64) as u8 == (b >> 40u64) as u8);
    assert((a >> 48u64) as u8 == (b >> 48u64) as u8);
    assert((a >> 56u64) as u8 == (b >> 56u64) as u8);
    assert(((a >> 0u64) as u8 == (b >> 0u64) as u8 && (a >> 8u64) as u8 == (b >> 8u64) as u8 && (a
        >> 16u64) as u8 == (b >> 16u64) as u8 && (a >> 24u64) as u8 == (b >> 24u64) as u8 && (a
        >> 32u64) as u8 == (b >> 32u64) as u8 && (a >> 40u64) as u8 == (b >> 40u64) as u8 && (a
        >> 48u64) as u8 == (b >> 48u64) as u8 && (a >> 56u64) as u8 == (b >> 56u64) as u8) ==> a
        == b) by (bit_vector);
}

} // verus!
