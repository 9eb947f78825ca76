//! The hex text form of field elements: `0x` followed by 64 lowercase hex
//! digits, most significant byte first.
//!
//! Decoding works on the UTF-8 bytes of the text, so every contract here
//! speaks of `encode_utf8` of the characters.

use vstd::prelude::*;
use vstd::slice::*;
use vstd::string::*;
use vstd::utf8::*;
use crate::element::Element;
use crate::text::char_debug;
use crate::text::char_debug_text;
use crate::text::decimal;
use crate::text::decimal_text;

verus! {

/// Why a byte string is not a string of hex digit pairs, as the `hex`
/// crate tells it.
#[derive(Clone, Copy, Debug, PartialEq, Eq)]
enum HexFault {
    /// The byte at `index` is no hex digit; `c` is that byte as a character.
    InvalidCharacter { c: char, index: usize },
    /// The string has an odd number of bytes.
    OddLength,
    /// The string does not fill a container of fixed size.
    InvalidStringLength,
}

/// Why a text does not denote a field element. Lengths and positions count
/// the bytes of the text behind an optional `0x`.
#[derive(Clone, Copy, Debug, PartialEq, Eq)]
pub enum DecodeError {
    /// The text has an odd number of bytes, namely `digits`.
    OddLength { digits: usize },
    /// The text has an even number of bytes, enough for `bytes` bytes, and
    /// `bytes` is not 32.
    WrongLength { bytes: usize },
    /// The text has 64 bytes, and the byte at `index` is the first that is
    /// no hex digit; `c` is that byte as a character.
    InvalidCharacter { c: char, index: usize },
}

/// ASCII `0`-`9`, `A`-`F` or `a`-`f`.
pub open spec fn is_hex_digit(b: u8) -> bool {
    (0x30 <= b <= 0x39) || (0x41 <= b <= 0x46) || (0x61 <= b <= 0x66)
}

/// The number from 0 to 15 that a hex digit stands for.
pub open spec fn hex_digit_value(b: u8) -> int
    recommends
        is_hex_digit(b),
{
    if 0x30 <= b <= 0x39 {
        b - 0x30
    } else if 0x41 <= b <= 0x46 {
        b - 0x41 + 10
    } else {
        b - 0x61 + 10
    }
}

/// The lowercase hex digit for a number from 0 to 15.
pub open spec fn lower_hex_char(v: int) -> char
    recommends
        0 <= v < 16,
{
    seq!['0', '1', '2', '3', '4', '5', '6', '7', '8', '9', 'a', 'b', 'c', 'd', 'e', 'f'][v]
}

/// How many hex digits stand at the start of `b`: the index of the first
/// byte that is none, or the length of `b` where all are.
pub open spec fn hex_prefix_len(b: Seq<u8>) -> nat
    decreases b.len(),
{
    if b.len() > 0 && is_hex_digit(b[0]) {
        1 + hex_prefix_len(b.drop_first())
    } else {
        0
    }
}

/// An even number of bytes, all of them hex digits.
pub open spec fn is_hex_text(b: Seq<u8>) -> bool {
    b.len() % 2 == 0 && hex_prefix_len(b) == b.len()
}

/// The bytes that the digit pairs of `b` denote, first digit high.
pub open spec fn hex_to_bytes(b: Seq<u8>) -> Seq<u8>
    recommends
        is_hex_text(b),
{
    Seq::new(b.len() / 2, |i: int| (hex_digit_value(b[2 * i]) * 16 + hex_digit_value(b[2 * i + 1])) as u8)
}

/// What the `hex` crate finds wrong with `b`, where it is no hex text: an
/// odd length comes before a bad digit, and of bad digits the first is
/// reported.
spec fn hex_fault(b: Seq<u8>) -> HexFault
    recommends
        !is_hex_text(b),
{
    if b.len() % 2 == 1 {
        HexFault::OddLength
    } else {
        HexFault::InvalidCharacter {
            c: b[hex_prefix_len(b) as int] as char,
            index: hex_prefix_len(b) as usize,
        }
    }
}

/// Two lowercase hex digits for each byte of `data`, high digit first.
pub open spec fn hex_chars(data: Seq<u8>) -> Seq<char> {
    Seq::new(
        2 * data.len(),
        |i: int| lower_hex_char(if i % 2 == 0 { data[i / 2] as int / 16 } else { data[i / 2] as int % 16 }),
    )
}

/// `hex::decode` on a byte string. It succeeds exactly on an even number of
/// hex digits of either case, and then returns the byte of each pair.
/// Otherwise it reports an odd length, or else the first byte that is no
/// hex digit, with its index.
#[verifier::external_body]
fn hex_decode(data: &[u8]) -> (r: Result<Vec<u8>, HexFault>)
    ensures
        match r {
            Ok(bytes) => is_hex_text(data@) && bytes@ == hex_to_bytes(data@),
            Err(fault) => !is_hex_text(data@) && fault == hex_fault(data@),
        },
{
    match hex::decode(data) {
        Ok(bytes) => Ok(bytes),
        Err(hex::FromHexError::InvalidHexCharacter { c, index }) => Err(
            HexFault::InvalidCharacter { c, index },
        ),
        Err(hex::FromHexError::OddLength) => Err(HexFault::OddLength),
        Err(hex::FromHexError::InvalidStringLength) => Err(HexFault::InvalidStringLength),
    }
}

/// `hex::encode` on a byte string: two lowercase hex digits per byte, the
/// high half of the byte first.
#[verifier::external_body]
fn hex_encode(data: &[u8]) -> (text: String)
    ensures
        text@ == hex_chars(data@),
{
    hex::encode(data)
}

/// The bytes of a text without a leading `0x`, where it has one.
pub open spec fn strip_0x(b: Seq<u8>) -> Seq<u8> {
    if b.len() >= 2 && b[0] == 0x30 && b[1] == 0x78 {
        b.skip(2)
    } else {
        b
    }
}

/// The element bytes that a text denotes, or why it denotes none.
///
/// An optional `0x` is dropped; what remains must be exactly 64 bytes, all
/// of them hex digits. The length is tested first, so that every text of
/// another length is refused with its length; a text of the right length
/// is refused with its first byte that is no hex digit.
pub open spec fn decode_element(text: Seq<char>) -> Result<Seq<u8>, DecodeError> {
    let digits = strip_0x(encode_utf8(text));
    if digits.len() % 2 == 1 {
        Err(DecodeError::OddLength { digits: digits.len() as usize })
    } else if digits.len() != 64 {
        Err(DecodeError::WrongLength { bytes: (digits.len() / 2) as usize })
    } else if hex_prefix_len(digits) < digits.len() {
        Err(
            DecodeError::InvalidCharacter {
                c: digits[hex_prefix_len(digits) as int] as char,
                index: hex_prefix_len(digits) as usize,
            },
        )
    } else {
        Ok(hex_to_bytes(digits))
    }
}

/// The text form of an element: `0x` and 64 lowercase hex digits.
pub open spec fn element_hex(bytes: Seq<u8>) -> Seq<char> {
    seq!['0', 'x'] + hex_chars(bytes)
}

/// The view of a decoding result.
pub open spec fn decoded_view(r: Result<Element, DecodeError>) -> Result<Seq<u8>, DecodeError> {
    match r {
        Ok(e) => Ok(e@),
        Err(err) => Err(err),
    }
}

fn strip_prefix_0x(bytes: &[u8]) -> (rest: &[u8])
    ensures
        rest@ == strip_0x(bytes@),
{
    if bytes.len() >= 2 && bytes[0] == 0x30 && bytes[1] == 0x78 {
        let rest = slice_subrange(bytes, 2, bytes.len());
        assert(rest@ =~= bytes@.skip(2));
        rest
    } else {
        bytes
    }
}

/// Decodes the hex text of a field element.
pub fn hex_to_element(hex: &str) -> (r: Result<Element, DecodeError>)
    ensures
        decoded_view(r) == decode_element(hex@),
{
    let digits = strip_prefix_0x(hex.as_bytes());
    let n: usize = digits.len();
    if n % 2 == 1 {
        return Err(DecodeError::OddLength { digits: n });
    }
    if n != 64 {
        return Err(DecodeError::WrongLength { bytes: n / 2 });
    }
    proof {
        lemma_hex_prefix_len_bound(digits@);
    }
    match hex_decode(digits) {
        Err(HexFault::InvalidCharacter { c, index }) => Err(
            DecodeError::InvalidCharacter { c, index },
        ),
        Err(_) => {
            // The length is even, and decoding into a vector reports no
            // other fault of the length.
            assert(false);
            Err(DecodeError::OddLength { digits: n })
        },
        Ok(bytes) => {
            let mut arr: [u8; 32] = [0u8; 32];
            let mut i: usize = 0;
            while i < 32
                invariant
                    i <= 32,
                    bytes@.len() == 32,
                    forall|j: int| 0 <= j < i ==> arr@[j] == bytes@[j],
                decreases 32 - i,
            {
                arr[i] = bytes[i];
                i = i + 1;
            }
            assert(arr@ =~= bytes@);
            Ok(Element::from_be_bytes(arr))
        },
    }
}

/// Encodes a field element as hex text.
pub fn element_to_hex(element: Element) -> (text: String)
    ensures
        text@ == element_hex(element@),
{
    let bytes = element.to_be_bytes();
    let digits = hex_encode(bytes.as_slice());
    proof {
        reveal_strlit("0x");
    }
    let text = "0x".to_string().concat(digits.as_str());
    assert(text@ =~= element_hex(element@));
    text
}

/// What to tell a caller about a text that denotes no element. A text of
/// the wrong length is told its length; a bad digit is named, as the
/// standard library writes a character, with its position.
pub open spec fn decode_error_text(err: DecodeError) -> Seq<char> {
    match err {
        DecodeError::OddLength { digits } => "Invalid hex string: Odd number of digits, got "@
            + decimal_text(digits as nat),
        DecodeError::WrongLength { bytes } => "Expected 32 bytes, got "@ + decimal_text(bytes as nat),
        DecodeError::InvalidCharacter { c, index } => {
            "Invalid hex string: Invalid character "@ + char_debug_text(c) + " at position "@
                + decimal_text(index as nat)
        },
    }
}

impl DecodeError {
    /// A message that names the fault, with the offending length, or with
    /// the offending character and its position.
    pub fn message(&self) -> (text: String)
        ensures
            text@ == decode_error_text(*self),
    {
        match self {
            DecodeError::OddLength { digits } => {
                let got = decimal(*digits as u64);
                "Invalid hex string: Odd number of digits, got ".to_string().concat(got.as_str())
            },
            DecodeError::WrongLength { bytes } => {
                let got = decimal(*bytes as u64);
                "Expected 32 bytes, got ".to_string().concat(got.as_str())
            },
            DecodeError::InvalidCharacter { c, index } => {
                let what = char_debug(*c);
                let at = decimal(*index as u64);
                "Invalid hex string: Invalid character ".to_string().concat(what.as_str()).concat(
                    " at position ",
                ).concat(at.as_str())
            },
        }
    }
}

/// `hex_prefix_len` is the index of the first byte that is no hex digit.
pub proof fn lemma_hex_prefix_len(b: Seq<u8>, n: int)
    requires
        0 <= n <= b.len(),
        forall|j: int| 0 <= j < n ==> is_hex_digit(#[trigger] b[j]),
        n < b.len() ==> !is_hex_digit(b[n]),
    ensures
        hex_prefix_len(b) == n,
    decreases b.len(),
{
    if n > 0 {
        let rest = b.drop_first();
        assert forall|j: int| 0 <= j < n - 1 implies is_hex_digit(#[trigger] rest[j]) by {
            assert(rest[j] == b[j + 1]);
        }
        lemma_hex_prefix_len(rest, n - 1);
    }
}

/// No byte string starts with more hex digits than it has bytes.
proof fn lemma_hex_prefix_len_bound(b: Seq<u8>)
    ensures
        hex_prefix_len(b) <= b.len(),
    decreases b.len(),
{
    if b.len() > 0 && is_hex_digit(b[0]) {
        lemma_hex_prefix_len_bound(b.drop_first());
    }
}

/// Each digit that encoding writes is a hex digit with the value it was
/// written for.
proof fn lemma_lower_hex_char(v: int)
    requires
        0 <= v < 16,
    ensures
        is_hex_digit(lower_hex_char(v) as u8),
        hex_digit_value(lower_hex_char(v) as u8) == v,
        '\0' <= lower_hex_char(v) <= '\u{7f}',
{
}

/// The UTF-8 bytes of an element's text form: the ASCII codes of its
/// characters, one byte each.
proof fn lemma_element_hex_bytes(x: Seq<u8>)
    ensures
        is_ascii_chars(element_hex(x)),
        encode_utf8(element_hex(x)).len() == 2 + 2 * x.len(),
        forall|i: int|
            0 <= i < 2 + 2 * x.len() ==> #[trigger] encode_utf8(element_hex(x))[i] == element_hex(
                x,
            )[i] as u8,
{
    let text = element_hex(x);
    assert forall|i: int| 0 <= i < text.len() implies '\0' <= #[trigger] text[i] <= '\u{7f}' by {
        if i >= 2 {
            let k = i - 2;
            let v = if k % 2 == 0 {
                x[k / 2] as int / 16
            } else {
                x[k / 2] as int % 16
            };
            assert(text[i] == hex_chars(x)[k]);
            lemma_lower_hex_char(v);
        }
    }
    is_ascii_chars_encode_utf8(text);
}

/// A lowercase hex digit: `0`-`9` or `a`-`f`.
pub open spec fn is_lower_hex_char(c: char) -> bool {
    ('0' <= c <= '9') || ('a' <= c <= 'f')
}

/// The text form of 32 bytes is `0x` followed by exactly 64 lowercase hex
/// digits.
pub proof fn lemma_element_hex_shape(x: Seq<u8>)
    requires
        x.len() == 32,
    ensures
        element_hex(x).len() == 66,
        element_hex(x)[0] == '0',
        element_hex(x)[1] == 'x',
        forall|i: int| 2 <= i < 66 ==> is_lower_hex_char(#[trigger] element_hex(x)[i]),
{
    assert forall|i: int| 2 <= i < 66 implies is_lower_hex_char(#[trigger] element_hex(x)[i]) by {
        let k = i - 2;
        let v = if k % 2 == 0 {
            x[k / 2] as int / 16
        } else {
            x[k / 2] as int % 16
        };
        assert(element_hex(x)[i] == hex_chars(x)[k]);
        assert(0 <= v < 16);
        assert(is_lower_hex_char(lower_hex_char(v)));
    }
}

/// Decoding undoes encoding: the text form of any 32 bytes decodes to
/// those bytes.
pub proof fn lemma_decode_encode(x: Seq<u8>)
    requires
        x.len() == 32,
    ensures
        decode_element(element_hex(x)) == Ok::<Seq<u8>, DecodeError>(x),
{
    let text = element_hex(x);
    let all = encode_utf8(text);
    lemma_element_hex_bytes(x);
    assert(all[0] == text[0] as u8);
    assert(all[1] == text[1] as u8);
    let digits = strip_0x(all);
    assert(digits == all.skip(2));
    assert(digits.len() == 64);
    assert forall|j: int| 0 <= j < 64 implies is_hex_digit(#[trigger] digits[j]) && hex_digit_value(
        digits[j],
    ) == (if j % 2 == 0 {
        x[j / 2] as int / 16
    } else {
        x[j / 2] as int % 16
    }) by {
        let v = if j % 2 == 0 {
            x[j / 2] as int / 16
        } else {
            x[j / 2] as int % 16
        };
        assert(digits[j] == all[j + 2]);
        assert(text[j + 2] == hex_chars(x)[j]);
        lemma_lower_hex_char(v);
    }
    lemma_hex_prefix_len(digits, 64);
    assert(hex_to_bytes(digits) =~= x) by {
        assert forall|i: int| 0 <= i < 32 implies hex_to_bytes(digits)[i] == x[i] by {
            assert(is_hex_digit(digits[2 * i]));
            assert(is_hex_digit(digits[2 * i + 1]));
        }
    }
}

/// A text whose digits, after an optional `0x`, are not exactly 64 bytes
/// long denotes no element, and the error holds the length: the number of
/// bytes where it is odd, the bytes it would decode to where it is even.
pub proof fn lemma_decode_rejects_other_lengths(text: Seq<char>)
    requires
        strip_0x(encode_utf8(text)).len() != 64,
    ensures
        decode_element(text) == Err::<Seq<u8>, DecodeError>(
            if strip_0x(encode_utf8(text)).len() % 2 == 1 {
                DecodeError::OddLength { digits: strip_0x(encode_utf8(text)).len() as usize }
            } else {
                DecodeError::WrongLength {
                    bytes: (strip_0x(encode_utf8(text)).len() / 2) as usize,
                }
            },
        ),
{
}

/// A text of the right length that holds a byte that is no hex digit
/// denotes no element, and the error names the first such byte.
pub proof fn lemma_decode_rejects_bad_digit(text: Seq<char>, at: int)
    requires
        strip_0x(encode_utf8(text)).len() == 64,
        0 <= at < 64,
        !is_hex_digit(strip_0x(encode_utf8(text))[at]),
        forall|j: int| 0 <= j < at ==> is_hex_digit(#[trigger] strip_0x(encode_utf8(text))[j]),
    ensures
        decode_element(text) == Err::<Seq<u8>, DecodeError>(
            DecodeError::InvalidCharacter {
                c: strip_0x(encode_utf8(text))[at] as char,
                index: at as usize,
            },
        ),
{
    lemma_hex_prefix_len(strip_0x(encode_utf8(text)), at);
}

/// Every text that decodes has exactly 64 hex digits after an optional
/// `0x`, and decodes to 32 bytes.
pub proof fn lemma_decode_ok_length(text: Seq<char>)
    requires
        decode_element(text) is Ok,
    ensures
        strip_0x(encode_utf8(text)).len() == 64,
        is_hex_text(strip_0x(encode_utf8(text))),
        decode_element(text)->Ok_0.len() == 32,
{
    lemma_hex_prefix_len_bound(strip_0x(encode_utf8(text)));
}

} // verus!
