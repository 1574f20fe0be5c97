//! Four-character codes: the four-byte tags by which the keychain service
//! names item classes and attribute types.
//!
//! A code is four bytes. Read in order they spell the tag (`b"genp"`). Taken
//! as a little-endian number they are the code's integer form, which on a
//! little-endian machine is the 32-bit integer that crosses the C interface.

use core::cmp::Ordering;
use vstd::prelude::*;
use vstd::std_specs::cmp::PartialOrdSpec;
use vstd::string::StringExecFns;
use vstd::utf8::*;

verus! {

/// A four-character code: the four bytes of a tag, in the order in which they
/// spell it.
///
/// Any four bytes make a code. Only a code whose bytes are well-formed UTF-8,
/// as every ASCII tag is, can be read as text.
///
/// Codes are equal when their bytes are, and are ordered as they are spelled:
/// by the first byte, then by the second, and so on.
#[derive(Copy, Clone, Debug, Eq, Hash, Ord)]
pub struct FourCharacterCode(pub [u8; 4]);

impl View for FourCharacterCode {
    type V = Seq<u8>;

    open spec fn view(&self) -> Seq<u8> {
        self.0@
    }
}

/// The four bytes of `n`, least significant first.
pub open spec fn le_bytes(n: u32) -> Seq<u8> {
    seq![
        (n % 0x100) as u8,
        (n / 0x100 % 0x100) as u8,
        (n / 0x1_0000 % 0x100) as u8,
        (n / 0x100_0000) as u8,
    ]
}

/// The number that four bytes make when the first is the least significant.
pub open spec fn le_value(bytes: Seq<u8>) -> int
    recommends
        bytes.len() == 4,
{
    bytes[0] + 0x100 * bytes[1] + 0x1_0000 * bytes[2] + 0x100_0000 * bytes[3]
}

/// The number that four bytes make when the first is the most significant.
/// Two codes compare as these numbers do.
pub open spec fn be_value(bytes: Seq<u8>) -> int
    recommends
        bytes.len() == 4,
{
    0x100_0000 * bytes[0] + 0x1_0000 * bytes[1] + 0x100 * bytes[2] + bytes[3]
}

/// Whether every byte of `bytes` is an ASCII character.
pub open spec fn is_ascii_bytes(bytes: Seq<u8>) -> bool {
    forall|i: int| 0 <= i < bytes.len() ==> bytes[i] < 0x80
}

/// The characters that ASCII bytes are, byte for byte.
pub open spec fn ascii_chars(bytes: Seq<u8>) -> Seq<char>
    recommends
        is_ascii_bytes(bytes),
{
    Seq::new(bytes.len(), |i: int| bytes[i] as char)
}

/// The bytes that ASCII characters are, character for character: their UTF-8
/// encoding.
pub open spec fn ascii_bytes(chars: Seq<char>) -> Seq<u8>
    recommends
        is_ascii_chars(chars),
{
    Seq::new(chars.len(), |i: int| chars[i] as u8)
}

impl PartialEq for FourCharacterCode {
    fn eq(&self, other: &Self) -> (equal: bool) {
        let equal = self.0[0] == other.0[0] && self.0[1] == other.0[1] && self.0[2] == other.0[2]
            && self.0[3] == other.0[3];
        proof {
            if equal {
                vstd::array::axiom_array_ext_equal(self.0, other.0);
                assert(self.0 =~= other.0);
            }
        }
        equal
    }
}

impl vstd::std_specs::cmp::PartialEqSpecImpl for FourCharacterCode {
    open spec fn obeys_eq_spec() -> bool {
        true
    }

    open spec fn eq_spec(&self, other: &Self) -> bool {
        *self == *other
    }
}

impl PartialOrd for FourCharacterCode {
    fn partial_cmp(&self, other: &Self) -> (order: Option<Ordering>) {
        let mine = self.spelled_value();
        let theirs = other.spelled_value();
        if mine < theirs {
            Some(Ordering::Less)
        } else if mine == theirs {
            Some(Ordering::Equal)
        } else {
            Some(Ordering::Greater)
        }
    }
}

impl vstd::std_specs::cmp::PartialOrdSpecImpl for FourCharacterCode {
    open spec fn obeys_partial_cmp_spec() -> bool {
        true
    }

    open spec fn partial_cmp_spec(&self, other: &Self) -> Option<Ordering> {
        if be_value(self@) < be_value(other@) {
            Some(Ordering::Less)
        } else if be_value(self@) == be_value(other@) {
            Some(Ordering::Equal)
        } else {
            Some(Ordering::Greater)
        }
    }
}

impl<'a> From<&'a [u8; 4]> for FourCharacterCode {
    /// The code that `bytes` spell: the same four bytes in the same order.
    fn from(bytes: &'a [u8; 4]) -> (code: FourCharacterCode)
        ensures
            code@ == bytes@,
    {
        FourCharacterCode(*bytes)
    }
}

impl<'a> vstd::std_specs::convert::FromSpecImpl<&'a [u8; 4]> for FourCharacterCode {
    open spec fn obeys_from_spec() -> bool {
        true
    }

    open spec fn from_spec(bytes: &'a [u8; 4]) -> FourCharacterCode {
        FourCharacterCode(*bytes)
    }
}

impl From<[u8; 4]> for FourCharacterCode {
    /// The code that `bytes` spell: the same four bytes in the same order.
    fn from(bytes: [u8; 4]) -> (code: FourCharacterCode)
        ensures
            code@ == bytes@,
    {
        FourCharacterCode::from(&bytes)
    }
}

impl vstd::std_specs::convert::FromSpecImpl<[u8; 4]> for FourCharacterCode {
    open spec fn obeys_from_spec() -> bool {
        true
    }

    open spec fn from_spec(bytes: [u8; 4]) -> FourCharacterCode {
        FourCharacterCode(bytes)
    }
}

impl From<u32> for FourCharacterCode {
    /// The code whose integer form is `n`: its bytes are those of `n`, least
    /// significant first.
    fn from(n: u32) -> (code: FourCharacterCode)
        ensures
            code@ == le_bytes(n),
    {
        let b0: u8 = (n % 0x100) as u8;
        let b1: u8 = (n / 0x100 % 0x100) as u8;
        let b2: u8 = (n / 0x1_0000 % 0x100) as u8;
        let b3: u8 = (n / 0x100_0000) as u8;
        FourCharacterCode([b0, b1, b2, b3])
    }
}

impl vstd::std_specs::convert::FromSpecImpl<u32> for FourCharacterCode {
    open spec fn obeys_from_spec() -> bool {
        true
    }

    open spec fn from_spec(n: u32) -> FourCharacterCode {
        FourCharacterCode(
            [
                (n % 0x100) as u8,
                (n / 0x100 % 0x100) as u8,
                (n / 0x1_0000 % 0x100) as u8,
                (n / 0x100_0000) as u8,
            ],
        )
    }
}

/// `core::str::from_utf8`: the text that `bytes` encode, which there is when
/// and only when they are well-formed UTF-8. The text borrows `bytes`, and its
/// encoding is those bytes again.
#[verifier::external_body]
fn utf8_text<'a>(bytes: &'a [u8]) -> (text: Option<&'a str>)
    ensures
        text is Some <==> valid_utf8(bytes@),
        text matches Some(t) ==> encode_utf8(t@) == bytes@,
{
    match core::str::from_utf8(bytes) {
        Ok(text) => Some(text),
        Err(_) => None,
    }
}

impl FourCharacterCode {
    /// The code's four bytes, in the order in which they spell the tag.
    pub fn as_bytes(&self) -> (bytes: &[u8; 4])
        ensures
            bytes@ == self@,
    {
        &self.0
    }

    /// The code's integer form: the number whose bytes, least significant
    /// first, are the code's.
    pub fn to_integer(&self) -> (n: u32)
        ensures
            n == le_value(self@),
    {
        let b0: u32 = self.0[0] as u32;
        let b1: u32 = self.0[1] as u32;
        let b2: u32 = self.0[2] as u32;
        let b3: u32 = self.0[3] as u32;
        b0 + 0x100 * b1 + 0x1_0000 * b2 + 0x100_0000 * b3
    }

    /// The number by which codes are ordered.
    fn spelled_value(&self) -> (value: u32)
        ensures
            value == be_value(self@),
    {
        let b0: u32 = self.0[0] as u32;
        let b1: u32 = self.0[1] as u32;
        let b2: u32 = self.0[2] as u32;
        let b3: u32 = self.0[3] as u32;
        0x100_0000 * b0 + 0x1_0000 * b1 + 0x100 * b2 + b3
    }

    /// The code as text, where its bytes are well-formed UTF-8, and `None`
    /// where they are not. The text borrows the code's own bytes.
    ///
    /// A code of four ASCII bytes always has a text: the four characters that
    /// its bytes are, in the same order.
    pub fn to_str(&self) -> (text: Option<&str>)
        ensures
            text is Some <==> valid_utf8(self@),
            text matches Some(t) ==> t@ == decode_utf8(self@) && encode_utf8(t@) == self@,
            is_ascii_bytes(self@) ==> (text matches Some(t) && t@ == ascii_chars(self@)),
    {
        let text = utf8_text(self.0.as_slice());
        proof {
            if let Some(t) = text {
                encode_utf8_decode_utf8(t@);
            }
            if is_ascii_bytes(self@) {
                lemma_ascii_code_spells_its_bytes(self.0);
            }
        }
        text
    }

    /// The code as text. The text borrows the code's own bytes.
    ///
    /// Only a code whose bytes are well-formed UTF-8 has a text; `to_str`
    /// tells whether this one has. Four ASCII bytes always are well-formed,
    /// and read as the four characters that they are.
    pub fn as_str(&self) -> (text: &str)
        requires
            valid_utf8(self@) || is_ascii_bytes(self@),
        ensures
            valid_utf8(self@),
            text@ == decode_utf8(self@),
            encode_utf8(text@) == self@,
            is_ascii_bytes(self@) ==> text@ == ascii_chars(self@),
    {
        match self.to_str() {
            Some(text) => text,
            None => vstd::pervasive::unreached(),
        }
    }

    /// The code as a debugger shows it: its text between `FourCharacterCode(`
    /// and `)`.
    ///
    /// As `as_str`, this is for a code whose bytes are well-formed UTF-8.
    pub fn to_debug_string(&self) -> (shown: String)
        requires
            valid_utf8(self@) || is_ascii_bytes(self@),
        ensures
            valid_utf8(self@),
            shown@ == "FourCharacterCode("@ + decode_utf8(self@) + ")"@,
            is_ascii_bytes(self@) ==> shown@ == "FourCharacterCode("@ + ascii_chars(self@) + ")"@,
    {
        let mut shown = String::from_str("FourCharacterCode(");
        shown.append(self.as_str());
        shown.append(")");
        shown
    }

    /// The code that a text of four bytes spells: the bytes of its UTF-8
    /// encoding, in order. A text of four ASCII characters is one of four
    /// bytes, which are its characters.
    pub fn from_text(text: &str) -> (code: FourCharacterCode)
        requires
            encode_utf8(text@).len() == 4 || (is_ascii_chars(text@) && text@.len() == 4),
        ensures
            code@ == encode_utf8(text@),
            is_ascii_chars(text@) ==> code@ == ascii_bytes(text@),
    {
        proof {
            lemma_ascii_text_encodes_as_itself(text@);
        }
        let bytes = text.as_bytes();
        FourCharacterCode([bytes[0], bytes[1], bytes[2], bytes[3]])
    }

    /// The code that a text spells, where its UTF-8 encoding is four bytes
    /// long, and `None` for a text of any other length: none is cut short or
    /// filled up. An ASCII text has as many bytes as characters.
    pub fn try_from_text(text: &str) -> (code: Option<FourCharacterCode>)
        ensures
            code is Some <==> encode_utf8(text@).len() == 4,
            code matches Some(c) ==> c@ == encode_utf8(text@),
            is_ascii_chars(text@) ==> (code is Some <==> text@.len() == 4),
            is_ascii_chars(text@) ==> (code matches Some(c) ==> c@ == ascii_bytes(text@)),
    {
        proof {
            lemma_ascii_text_encodes_as_itself(text@);
        }
        if text.as_bytes().len() == 4 {
            Some(FourCharacterCode::from_text(text))
        } else {
            None
        }
    }
}

/// The UTF-8 encoding of ASCII characters is those characters, one byte each.
pub proof fn lemma_ascii_text_encodes_as_itself(chars: Seq<char>)
    ensures
        is_ascii_chars(chars) ==> encode_utf8(chars) == ascii_bytes(chars),
{
    if is_ascii_chars(chars) {
        is_ascii_chars_encode_utf8(chars);
        assert(encode_utf8(chars) =~= ascii_bytes(chars));
    }
}

/// Reading the code made from an integer as an integer gives that integer
/// back.
pub proof fn lemma_integer_round_trip(n: u32)
    ensures
        le_bytes(n).len() == 4,
        le_value(le_bytes(n)) == n,
{
    let q1 = n / 0x100;
    let q2 = n / 0x1_0000;
    let q3 = n / 0x100_0000;
    assert(n == 0x100 * q1 + n % 0x100);
    assert(q2 == q1 / 0x100);
    assert(q1 == 0x100 * q2 + q1 % 0x100);
    assert(q3 == q2 / 0x100);
    assert(q2 == 0x100 * q3 + q2 % 0x100);
    assert(q3 < 0x100);
}

/// Four bytes read as an integer, and that integer made into a code, give
/// the same four bytes in the same order.
pub proof fn lemma_bytes_round_trip(bytes: Seq<u8>)
    requires
        bytes.len() == 4,
    ensures
        0 <= le_value(bytes) <= u32::MAX,
        le_bytes(le_value(bytes) as u32) == bytes,
{
    let n = le_value(bytes);
    let q1 = bytes[1] + 0x100 * bytes[2] + 0x1_0000 * bytes[3];
    let q2 = bytes[2] + 0x100 * bytes[3];
    assert(n == 0x100 * q1 + bytes[0]);
    assert(n / 0x100 == q1 && n % 0x100 == bytes[0]);
    assert(n == 0x1_0000 * q2 + (bytes[0] + 0x100 * bytes[1]));
    assert(n / 0x1_0000 == q2);
    assert(q1 == 0x100 * q2 + bytes[1]);
    assert(q1 % 0x100 == bytes[1]);
    assert(n == 0x100_0000 * bytes[3] + (bytes[0] + 0x100 * bytes[1] + 0x1_0000 * bytes[2]));
    assert(n / 0x100_0000 == bytes[3]);
    assert(q2 % 0x100 == bytes[2]);
    assert(le_bytes(n as u32) =~= bytes);
}

/// A code made from four ASCII bytes reads as a text of exactly four
/// characters, which are those bytes in the same order.
pub proof fn lemma_ascii_code_spells_its_bytes(bytes: [u8; 4])
    requires
        is_ascii_bytes(bytes@),
    ensures
        valid_utf8(FourCharacterCode(bytes)@),
        decode_utf8(FourCharacterCode(bytes)@) == ascii_chars(bytes@),
        ascii_chars(bytes@).len() == 4,
        is_ascii_chars(ascii_chars(bytes@)),
{
    let chars = ascii_chars(bytes@);
    assert(is_ascii_chars(chars));
    is_ascii_chars_encode_utf8(chars);
    assert(encode_utf8(chars) =~= bytes@);
    encode_utf8_valid_utf8(chars);
    encode_utf8_decode_utf8(chars);
}

/// Two numbers that are each a multiple of 256 and a byte, and are equal,
/// have the same multiple and the same byte.
proof fn lemma_same_digits(high: int, low: int, other_high: int, other_low: int)
    requires
        0 <= low < 0x100,
        0 <= other_low < 0x100,
        0x100 * high + low == 0x100 * other_high + other_low,
    ensures
        high == other_high,
        low == other_low,
{
}

/// Four bytes that make the same number, first byte most significant, are
/// the same four bytes.
proof fn lemma_same_value_same_bytes(a: Seq<u8>, b: Seq<u8>)
    requires
        a.len() == 4,
        b.len() == 4,
        be_value(a) == be_value(b),
    ensures
        a =~= b,
{
    let (a0, a1, a2, a3) = (a[0] as int, a[1] as int, a[2] as int, a[3] as int);
    let (b0, b1, b2, b3) = (b[0] as int, b[1] as int, b[2] as int, b[3] as int);
    lemma_same_digits(
        0x1_0000 * a0 + 0x100 * a1 + a2,
        a3,
        0x1_0000 * b0 + 0x100 * b1 + b2,
        b3,
    );
    lemma_same_digits(0x100 * a0 + a1, a2, 0x100 * b0 + b1, b2);
    lemma_same_digits(a0, a1, b0, b1);
}

/// Of two runs of four bytes, the one with the smaller byte at the first
/// place where they differ makes the smaller number, first byte most
/// significant.
proof fn lemma_first_difference_decides(a: Seq<u8>, b: Seq<u8>, i: int)
    requires
        a.len() == 4,
        b.len() == 4,
        0 <= i < 4,
        forall|j: int| 0 <= j < i ==> a[j] == b[j],
        a[i] < b[i],
    ensures
        be_value(a) < be_value(b),
{
    let (a0, a1, a2, a3) = (a[0] as int, a[1] as int, a[2] as int, a[3] as int);
    let (b0, b1, b2, b3) = (b[0] as int, b[1] as int, b[2] as int, b[3] as int);
    assert(be_value(a) == 0x100_0000 * a0 + 0x1_0000 * a1 + 0x100 * a2 + a3);
    assert(be_value(b) == 0x100_0000 * b0 + 0x1_0000 * b1 + 0x100 * b2 + b3);
    if i == 0 {
        assert(a0 + 1 <= b0);
    } else if i == 1 {
        assert(a0 == b0 && a1 + 1 <= b1);
    } else if i == 2 {
        assert(a0 == b0 && a1 == b1 && a2 + 1 <= b2);
    } else {
        assert(a0 == b0 && a1 == b1 && a2 == b2 && a3 + 1 <= b3);
    }
}

/// Codes are ordered as they are spelled: of two codes, the one with the
/// smaller byte at the first place where they differ comes first.
pub proof fn lemma_order_is_by_first_difference(
    a: FourCharacterCode,
    b: FourCharacterCode,
    i: int,
)
    requires
        0 <= i < 4,
        forall|j: int| 0 <= j < i ==> a@[j] == b@[j],
        a@[i] < b@[i],
    ensures
        a.partial_cmp_spec(&b) == Some(Ordering::Less),
        b.partial_cmp_spec(&a) == Some(Ordering::Greater),
{
    lemma_first_difference_decides(a@, b@, i);
}

/// Two codes that are neither before nor after one another are the same
/// code, and a code is neither before nor after itself.
pub proof fn lemma_equal_in_order_is_equal(a: FourCharacterCode, b: FourCharacterCode)
    ensures
        a.partial_cmp_spec(&b) == Some(Ordering::Equal) <==> a == b,
{
    if be_value(a@) == be_value(b@) {
        lemma_same_value_same_bytes(a@, b@);
        vstd::array::axiom_array_ext_equal(a.0, b.0);
        assert(a.0 =~= b.0);
    }
}

} // verus!
