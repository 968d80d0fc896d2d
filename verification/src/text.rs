//! Text: decoding it from bytes and code units, comparing it, and writing
//! numbers as hexadecimal digits.

use vstd::prelude::*;
use vstd::string::*;
use vstd::utf8::*;

verus! {

/// `std::string::FromUtf8Error`. Nothing is said of what it holds.
#[verifier::external_type_specification]
#[verifier::external_body]
pub struct ExFromUtf8Error(std::string::FromUtf8Error);

/// `std::string::FromUtf16Error`. Nothing is said of what it holds.
#[verifier::external_type_specification]
#[verifier::external_body]
pub struct ExFromUtf16Error(std::string::FromUtf16Error);

/// The text that a sequence of UTF-16 code units stands for, or `None` where
/// the units are not well-formed UTF-16.
pub uninterp spec fn utf16_text(units: Seq<u16>) -> Option<Seq<char>>;

/// `String::from_utf8`: succeeds exactly on well-formed UTF-8, and then holds
/// the text that the bytes stand for.
#[verifier::external_body]
fn string_from_utf8(bytes: Vec<u8>) -> (r: Result<String, std::string::FromUtf8Error>)
    ensures
        r is Ok <==> valid_utf8(bytes@),
        r matches Ok(text) ==> text@ == decode_utf8(bytes@),
{
    String::from_utf8(bytes)
}

/// `String::from_utf16`: succeeds exactly on well-formed UTF-16, and then
/// holds the text that the code units stand for.
#[verifier::external_body]
fn string_from_utf16(units: &[u16]) -> (r: Result<String, std::string::FromUtf16Error>)
    ensures
        r is Ok <==> utf16_text(units@) is Some,
        r matches Ok(text) ==> utf16_text(units@) == Some(text@),
{
    String::from_utf16(units)
}

/// The text that `String::from_utf8_lossy` makes of `bytes`: the text that
/// they stand for in UTF-8, with the replacement character in the place of
/// what is not well-formed.
pub uninterp spec fn utf8_lossy_text(bytes: Seq<u8>) -> Seq<char>;

/// `String::from_utf8_lossy`, made into a `String`.
#[verifier::external_body]
fn string_from_utf8_lossy(bytes: &[u8]) -> (text: String)
    ensures
        text@ == utf8_lossy_text(bytes@),
{
    String::from_utf8_lossy(bytes).into_owned()
}

/// Decodes UTF-8 for a reader's eyes: what is not well-formed is replaced.
pub fn decode_lossy(bytes: &[u8]) -> (text: String)
    ensures
        text@ == utf8_lossy_text(bytes@),
{
    string_from_utf8_lossy(bytes)
}

/// The text that `bytes` stand for in UTF-8, if they are well-formed.
pub open spec fn utf8_text(bytes: Seq<u8>) -> Option<Seq<char>> {
    if valid_utf8(bytes) {
        Some(decode_utf8(bytes))
    } else {
        None
    }
}

/// Decodes UTF-8.
pub fn decode_narrow(bytes: Vec<u8>) -> (text: Option<String>)
    ensures
        text is Some <==> utf8_text(bytes@) is Some,
        text matches Some(t) ==> utf8_text(bytes@) == Some(t@),
{
    match string_from_utf8(bytes) {
        Ok(text) => Some(text),
        Err(_) => None,
    }
}

/// Decodes UTF-16.
pub fn decode_wide(units: &[u16]) -> (text: Option<String>)
    ensures
        text is Some <==> utf16_text(units@) is Some,
        text matches Some(t) ==> utf16_text(units@) == Some(t@),
{
    match string_from_utf16(units) {
        Ok(text) => Some(text),
        Err(_) => None,
    }
}

/// A stored string without its terminator: its last character is dropped,
/// whatever it is. The empty string is stored without one.
pub open spec fn without_terminator(text: Seq<char>) -> Seq<char> {
    if text.len() == 0 {
        text
    } else {
        text.drop_last()
    }
}

/// Drops the terminator of a stored string.
pub fn strip_terminator(text: String) -> (stripped: String)
    ensures
        stripped@ == without_terminator(text@),
{
    let length: usize = text.as_str().unicode_len();
    if length == 0 {
        text
    } else {
        String::from_str(text.as_str().substring_char(0, length - 1))
    }
}

/// Whether two texts are the same.
pub fn same_text(a: &str, b: &str) -> (same: bool)
    ensures
        same == (a@ == b@),
{
    let left = a.as_bytes();
    let right = b.as_bytes();
    proof {
        encode_utf8_decode_utf8(a@);
        encode_utf8_decode_utf8(b@);
    }
    if left.len() != right.len() {
        return false;
    }
    let mut i: usize = 0;
    while i < left.len()
        invariant
            i <= left@.len(),
            left@.len() == right@.len(),
            left@ == encode_utf8(a@),
            right@ == encode_utf8(b@),
            decode_utf8(left@) == a@,
            decode_utf8(right@) == b@,
            forall|j: int| 0 <= j < i ==> left@[j] == right@[j],
        decreases left@.len() - i,
    {
        if left[i] != right[i] {
            return false;
        }
        i += 1;
    }
    assert(left@ =~= right@);
    true
}

/// The ten decimal digits.
pub open spec fn decimal_digit(n: nat) -> char {
    seq!['0', '1', '2', '3', '4', '5', '6', '7', '8', '9'][n as int]
}

/// A natural number in decimal digits, without leading zeros.
pub open spec fn decimal(n: nat) -> Seq<char>
    decreases n,
{
    if n < 10 {
        seq![decimal_digit(n)]
    } else {
        decimal(n / 10).push(decimal_digit(n % 10))
    }
}

/// An integer in decimal digits, with `-` before a negative one.
pub open spec fn signed_decimal(n: int) -> Seq<char> {
    if n < 0 {
        seq!['-'] + decimal((-n) as nat)
    } else {
        decimal(n as nat)
    }
}

fn decimal_digit_text(n: u32) -> (text: &'static str)
    requires
        n < 10,
    ensures
        text@ == seq![decimal_digit(n as nat)],
{
    proof {
        reveal_strlit("0");
        reveal_strlit("1");
        reveal_strlit("2");
        reveal_strlit("3");
        reveal_strlit("4");
        reveal_strlit("5");
        reveal_strlit("6");
        reveal_strlit("7");
        reveal_strlit("8");
        reveal_strlit("9");
    }
    let text = match n {
        0 => "0",
        1 => "1",
        2 => "2",
        3 => "3",
        4 => "4",
        5 => "5",
        6 => "6",
        7 => "7",
        8 => "8",
        _ => "9",
    };
    assert(text@ =~= seq![decimal_digit(n as nat)]);
    text
}

/// Appends `n` in decimal digits to `text`.
pub fn push_decimal(text: &mut String, n: u32)
    ensures
        final(text)@ == old(text)@ + decimal(n as nat),
    decreases n,
{
    if n >= 10 {
        push_decimal(text, n / 10);
    }
    text.append(decimal_digit_text(n % 10));
    assert(text@ =~= old(text)@ + decimal(n as nat));
}

/// Appends `n` in decimal digits to `text`, with `-` before a negative one.
pub fn push_signed_decimal(text: &mut String, n: i32)
    ensures
        final(text)@ == old(text)@ + signed_decimal(n as int),
{
    if n < 0 {
        text.append("-");
        proof {
            reveal_strlit("-");
        }
        let magnitude: u32 = if n == i32::MIN {
            0x8000_0000u32
        } else {
            (-n) as u32
        };
        push_decimal(text, magnitude);
        assert(text@ =~= old(text)@ + signed_decimal(n as int));
    } else {
        push_decimal(text, n as u32);
    }
}

/// The sixteen hexadecimal digits, in upper case.
pub open spec fn hex_digit(n: u32) -> char {
    seq!['0', '1', '2', '3', '4', '5', '6', '7', '8', '9', 'A', 'B', 'C', 'D', 'E', 'F'][n as int]
}

/// A 32-bit number as eight upper-case hexadecimal digits, most significant
/// first, zero-padded.
pub open spec fn hex8(v: u32) -> Seq<char> {
    seq![
        hex_digit(v / 0x1000_0000 % 16),
        hex_digit(v / 0x100_0000 % 16),
        hex_digit(v / 0x10_0000 % 16),
        hex_digit(v / 0x1_0000 % 16),
        hex_digit(v / 0x1000 % 16),
        hex_digit(v / 0x100 % 16),
        hex_digit(v / 0x10 % 16),
        hex_digit(v % 16),
    ]
}

fn hex_digit_text(n: u32) -> (text: &'static str)
    requires
        n < 16,
    ensures
        text@ == seq![hex_digit(n)],
{
    proof {
        reveal_strlit("0");
        reveal_strlit("1");
        reveal_strlit("2");
        reveal_strlit("3");
        reveal_strlit("4");
        reveal_strlit("5");
        reveal_strlit("6");
        reveal_strlit("7");
        reveal_strlit("8");
        reveal_strlit("9");
        reveal_strlit("A");
        reveal_strlit("B");
        reveal_strlit("C");
        reveal_strlit("D");
        reveal_strlit("E");
        reveal_strlit("F");
    }
    let text = match n {
        0 => "0",
        1 => "1",
        2 => "2",
        3 => "3",
        4 => "4",
        5 => "5",
        6 => "6",
        7 => "7",
        8 => "8",
        9 => "9",
        10 => "A",
        11 => "B",
        12 => "C",
        13 => "D",
        14 => "E",
        _ => "F",
    };
    assert(text@ =~= seq![hex_digit(n)]);
    text
}

/// Appends the eight hexadecimal digits of `v` to `text`.
pub fn push_hex8(text: &mut String, v: u32)
    ensures
        final(text)@ == old(text)@ + hex8(v),
{
    text.append(hex_digit_text(v / 0x1000_0000 % 16));
    text.append(hex_digit_text(v / 0x100_0000 % 16));
    text.append(hex_digit_text(v / 0x10_0000 % 16));
    text.append(hex_digit_text(v / 0x1_0000 % 16));
    text.append(hex_digit_text(v / 0x1000 % 16));
    text.append(hex_digit_text(v / 0x100 % 16));
    text.append(hex_digit_text(v / 0x10 % 16));
    text.append(hex_digit_text(v % 16));
    assert(text@ =~= old(text)@ + hex8(v));
}

} // verus!
