//! Strings, GUIDs and booleans.

use crate::error::{
    agrees, failure, follows, in_stage, lemma_follows_reflexive, lemma_stays_within_lift,
    stays_within, within, FailureKind, ParseErrorKind, ParseResult, Parsed, SaveFileParseError,
    Stage,
};
use crate::text::{
    decode_narrow, decode_wide, hex8, push_hex8, same_text, strip_terminator, utf16_text,
    utf8_text, without_terminator,
};
use crate::wire::{
    bytes_grammar, i32_grammar, le16, lemma_bytes_stay_within, lemma_numbers_stay_within,
    read_i32, read_u16, read_u32, read_u8, take_bytes, u32_grammar, u8_grammar,
};
use vstd::prelude::*;
use vstd::slice::*;
use vstd::string::*;

verus! {

/// `count` UTF-16 code units, each stored low byte first. Where the input
/// ends too early, the failure lies at the first unit that is not whole.
pub open spec fn code_units_grammar(s: Seq<u8>, count: nat) -> Parsed<Seq<u16>> {
    if s.len() >= 2 * count {
        Ok((Seq::new(count, |i: int| le16(s.skip(2 * i)) as u16), s.skip(2 * count as int)))
    } else {
        Err(failure(s.skip(2 * (s.len() as int / 2)), FailureKind::UnexpectedEof))
    }
}

/// A string body of `count` bytes of UTF-8, terminator and all.
pub open spec fn narrow_text_grammar(s: Seq<u8>, count: nat) -> Parsed<Seq<char>> {
    match bytes_grammar(s, count) {
        Err(f) => Err(f),
        Ok((bytes, rest)) => match utf8_text(bytes) {
            Some(text) => Ok((without_terminator(text), rest)),
            None => Err(failure(s, FailureKind::InvalidUtf8)),
        },
    }
}

/// A string body of `count` UTF-16 code units, terminator and all.
pub open spec fn wide_text_grammar(s: Seq<u8>, count: nat) -> Parsed<Seq<char>> {
    match code_units_grammar(s, count) {
        Err(f) => Err(f),
        Ok((units, rest)) => match utf16_text(units) {
            Some(text) => Ok((without_terminator(text), rest)),
            None => Err(failure(s, FailureKind::InvalidUtf16)),
        },
    }
}

/// Whether a string's length field is inside the accepted window.
pub open spec fn string_length_accepted(length: i32) -> bool {
    -0x1_0000 < length < 0x1_0000
}

/// A string: a signed 32-bit length, then the body. A negative length counts
/// UTF-16 code units, any other counts bytes of UTF-8. The body ends in a
/// terminator, which is not part of the text; a length of zero has no body.
#[verifier::opaque]
pub open spec fn string_grammar(s: Seq<u8>) -> Parsed<Seq<char>> {
    within(
        match i32_grammar(s) {
            Err(f) => Err(f),
            Ok((length, body)) => if !string_length_accepted(length) {
                Err(failure(s, FailureKind::StringLength(length)))
            } else if length < 0 {
                wide_text_grammar(body, (-length) as nat)
            } else {
                narrow_text_grammar(body, length as nat)
            },
        },
        Stage::String,
    )
}

/// Code units point into their input.
pub proof fn lemma_code_units_stay_within(s: Seq<u8>, count: nat)
    ensures
        stays_within(code_units_grammar(s, count), s),
{
    reveal(follows);
}

/// A string points into its input, and takes at least the four bytes of its
/// length field from its front.
pub proof fn lemma_string_stays_within(s: Seq<u8>)
    ensures
        stays_within(string_grammar(s), s),
        string_grammar(s) matches Ok((_, rest)) ==> rest.len() + 4 <= s.len(),
{
    reveal(string_grammar);
    lemma_numbers_stay_within(s);
    lemma_follows_reflexive(s);
    if let Ok((length, body)) = i32_grammar(s) {
        lemma_follows_reflexive(body);
        if string_length_accepted(length) {
            if length < 0 {
                lemma_code_units_stay_within(body, (-length) as nat);
                lemma_stays_within_lift(wide_text_grammar(body, (-length) as nat), body, s);
            } else {
                lemma_bytes_stay_within(body, length as nat);
                lemma_stays_within_lift(narrow_text_grammar(body, length as nat), body, s);
            }
        }
        assert(string_grammar(s) matches Ok((_, rest)) ==> rest.len() + 4 <= s.len()) by {
            reveal(follows);
        }
    }
}

fn read_code_units<'a>(input: &'a [u8], count: usize) -> (r: ParseResult<'a, Vec<u16>>)
    ensures
        agrees(r, code_units_grammar(input@, count as nat)),
{
    let mut units: Vec<u16> = Vec::new();
    let mut rest = input;
    let mut i: usize = 0;
    while i < count
        invariant
            i <= count,
            input@.len() >= 2 * i,
            rest@ == input@.skip(2 * i),
            units@ == Seq::new(i as nat, |k: int| le16(input@.skip(2 * k)) as u16),
        decreases count - i,
    {
        match read_u16(rest) {
            Ok((after, unit)) => {
                assert(after@ =~= input@.skip(2 * (i + 1)));
                units.push(unit);
                assert(units@ =~= Seq::new(
                    (i + 1) as nat,
                    |k: int| le16(input@.skip(2 * k)) as u16,
                ));
                rest = after;
                i += 1;
            },
            Err(e) => {
                assert(input@.len() as int / 2 == i);
                return Err(e);
            },
        }
    }
    Ok((rest, units))
}

/// Decodes a string.
pub fn parse_string<'a>(input: &'a [u8]) -> (r: ParseResult<'a, String>)
    ensures
        agrees(r, string_grammar(input@)),
{
    proof {
        reveal(string_grammar);
    }
    let stage = Stage::String;
    let (body, length) = in_stage(read_i32(input), stage)?;
    if length <= -0x1_0000 || length >= 0x1_0000 {
        return in_stage(
            Err(SaveFileParseError::new(input, ParseErrorKind::StringLength(length))),
            stage,
        );
    }
    if length < 0 {
        let (rest, units) = in_stage(read_code_units(body, (-length) as usize), stage)?;
        match decode_wide(units.as_slice()) {
            Some(text) => Ok((rest, strip_terminator(text))),
            None => in_stage(
                Err(SaveFileParseError::new(body, ParseErrorKind::InvalidUtf16)),
                stage,
            ),
        }
    } else {
        let (rest, bytes) = in_stage(take_bytes(body, length as usize), stage)?;
        match decode_narrow(slice_to_vec(bytes)) {
            Some(text) => Ok((rest, strip_terminator(text))),
            None => in_stage(
                Err(SaveFileParseError::new(body, ParseErrorKind::InvalidUtf8)),
                stage,
            ),
        }
    }
}

/// A GUID: null, or its text.
#[derive(Debug, PartialEq, Eq, Hash)]
pub struct Guid(Option<String>);

impl View for Guid {
    type V = Option<Seq<char>>;

    closed spec fn view(&self) -> Option<Seq<char>> {
        match self.0 {
            Some(text) => Some(text@),
            None => None,
        }
    }
}

/// The text of the GUID with the four groups `a` to `d`: each group as eight
/// hexadecimal digits, joined by `-`.
pub open spec fn guid_text(a: u32, b: u32, c: u32, d: u32) -> Seq<char> {
    hex8(a) + seq!['-'] + hex8(b) + seq!['-'] + hex8(c) + seq!['-'] + hex8(d)
}

/// The GUID with the four groups `a` to `d`: null if and only if all four are
/// zero.
pub open spec fn guid_of(a: u32, b: u32, c: u32, d: u32) -> Option<Seq<char>> {
    if a == 0 && b == 0 && c == 0 && d == 0 {
        None
    } else {
        Some(guid_text(a, b, c, d))
    }
}

/// A GUID: four unsigned 32-bit groups.
pub open spec fn guid_grammar(s: Seq<u8>) -> Parsed<Option<Seq<char>>> {
    within(
        match u32_grammar(s) {
            Err(f) => Err(f),
            Ok((a, s)) => match u32_grammar(s) {
                Err(f) => Err(f),
                Ok((b, s)) => match u32_grammar(s) {
                    Err(f) => Err(f),
                    Ok((c, s)) => match u32_grammar(s) {
                        Err(f) => Err(f),
                        Ok((d, s)) => Ok((guid_of(a, b, c, d), s)),
                    },
                },
            },
        },
        Stage::Guid,
    )
}

/// A GUID points into its input.
pub proof fn lemma_guid_stays_within(s: Seq<u8>)
    ensures
        stays_within(guid_grammar(s), s),
{
    lemma_numbers_stay_within(s);
    if let Ok((_, s1)) = u32_grammar(s) {
        lemma_numbers_stay_within(s1);
        lemma_stays_within_lift(u32_grammar(s1), s1, s);
        if let Ok((_, s2)) = u32_grammar(s1) {
            lemma_numbers_stay_within(s2);
            lemma_stays_within_lift(u32_grammar(s2), s2, s);
            if let Ok((_, s3)) = u32_grammar(s2) {
                lemma_numbers_stay_within(s3);
                lemma_stays_within_lift(u32_grammar(s3), s3, s);
            }
        }
    }
}

impl Guid {
    /// The GUID with the four groups `a` to `d`.
    pub fn from_groups(a: u32, b: u32, c: u32, d: u32) -> (guid: Guid)
        ensures
            guid@ == guid_of(a, b, c, d),
    {
        if a == 0 && b == 0 && c == 0 && d == 0 {
            Guid(None)
        } else {
            let mut text = String::new();
            push_hex8(&mut text, a);
            text.append("-");
            push_hex8(&mut text, b);
            text.append("-");
            push_hex8(&mut text, c);
            text.append("-");
            push_hex8(&mut text, d);
            proof {
                reveal_strlit("-");
                assert("-"@ =~= seq!['-']);
                assert(text@ =~= guid_text(a, b, c, d));
            }
            Guid(Some(text))
        }
    }

    /// Whether this is the null GUID.
    pub fn is_null(&self) -> (null: bool)
        ensures
            null == (self@ is None),
    {
        self.0.is_none()
    }

    /// The text, unless this is the null GUID.
    pub fn text(&self) -> (text: Option<&str>)
        ensures
            text is Some == self@ is Some,
            text matches Some(t) ==> self@ == Some(t@),
    {
        match &self.0 {
            Some(text) => Some(text.as_str()),
            None => None,
        }
    }

    /// Whether two GUIDs are the same.
    pub fn same(&self, other: &Guid) -> (same: bool)
        ensures
            same == (self@ == other@),
    {
        match (&self.0, &other.0) {
            (Some(a), Some(b)) => same_text(a.as_str(), b.as_str()),
            (None, None) => true,
            _ => false,
        }
    }
}

/// Decodes a GUID.
pub fn parse_guid<'a>(input: &'a [u8]) -> (r: ParseResult<'a, Guid>)
    ensures
        agrees(r, guid_grammar(input@)),
{
    let stage = Stage::Guid;
    let (rest, a) = in_stage(read_u32(input), stage)?;
    let (rest, b) = in_stage(read_u32(rest), stage)?;
    let (rest, c) = in_stage(read_u32(rest), stage)?;
    let (rest, d) = in_stage(read_u32(rest), stage)?;
    Ok((rest, Guid::from_groups(a, b, c, d)))
}

/// A strict boolean: one byte, 0 or 1.
pub open spec fn bool_grammar(s: Seq<u8>) -> Parsed<bool> {
    within(
        match u8_grammar(s) {
            Err(f) => Err(f),
            Ok((byte, rest)) => if byte == 0 {
                Ok((false, rest))
            } else if byte == 1 {
                Ok((true, rest))
            } else {
                Err(failure(s, FailureKind::InvalidBool(byte)))
            },
        },
        Stage::Bool,
    )
}

/// A strict boolean points into its input.
pub proof fn lemma_bool_stays_within(s: Seq<u8>)
    ensures
        stays_within(bool_grammar(s), s),
{
    lemma_numbers_stay_within(s);
    lemma_follows_reflexive(s);
}

/// Decodes a strict boolean.
pub fn parse_bool<'a>(input: &'a [u8]) -> (r: ParseResult<'a, bool>)
    ensures
        agrees(r, bool_grammar(input@)),
{
    let stage = Stage::Bool;
    let (rest, byte) = in_stage(read_u8(input), stage)?;
    if byte == 0 {
        Ok((rest, false))
    } else if byte == 1 {
        Ok((rest, true))
    } else {
        in_stage(Err(SaveFileParseError::new(input, ParseErrorKind::InvalidBool(byte))), stage)
    }
}

} // verus!
