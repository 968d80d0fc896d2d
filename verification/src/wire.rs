//! Fixed-width little-endian fields and reserved regions, read with nom.

use crate::error::{
    agrees, failure, follows, stays_within, FailureKind, ParseErrorKind, ParseResult, Parsed,
    SaveFileParseError,
};
use vstd::prelude::*;
use vstd::slice::*;

verus! {

/// `nom::Err`, the failure of a nom parser. Nothing is said of what it
/// holds.
#[verifier::external_type_specification]
#[verifier::external_body]
#[verifier::reject_recursive_types(E)]
pub struct ExNomErr<E>(nom::Err<E>);

/// `nom::error::Error`, nom's default error. Nothing is said of what it
/// holds.
#[verifier::external_type_specification]
#[verifier::external_body]
#[verifier::reject_recursive_types(I)]
pub struct ExNomError<I>(nom::error::Error<I>);

/// The number that the first two bytes of `s` hold, low byte first.
pub open spec fn le16(s: Seq<u8>) -> int {
    s[0] + s[1] * 0x100
}

/// The number that the first four bytes of `s` hold, low byte first.
pub open spec fn le32(s: Seq<u8>) -> int {
    s[0] + s[1] * 0x100 + s[2] * 0x1_0000 + s[3] * 0x100_0000
}

/// The number that the first eight bytes of `s` hold, low byte first.
pub open spec fn le64(s: Seq<u8>) -> int {
    le32(s) + le32(s.skip(4)) * 0x1_0000_0000
}

/// The signed reading of `value`, an unsigned number below `modulus`, in
/// two's complement.
pub open spec fn signed(value: int, modulus: int) -> int {
    if 2 * value >= modulus {
        value - modulus
    } else {
        value
    }
}

/// A field of `width` bytes that holds `value`: present if `s` has that many
/// bytes, else the input ends too early, at `s`.
pub open spec fn field<T>(s: Seq<u8>, width: nat, value: T) -> Parsed<T> {
    if s.len() >= width {
        Ok((value, s.skip(width as int)))
    } else {
        Err(failure(s, FailureKind::UnexpectedEof))
    }
}

/// A field points into its input: it leaves what follows its bytes, or
/// fails at its front.
pub proof fn lemma_field_stays_within<T>(s: Seq<u8>, width: nat, value: T)
    ensures
        stays_within(field(s, width, value), s),
{
    reveal(follows);
    assert(s =~= s.skip(0));
}

/// The numbers point into their input.
pub proof fn lemma_numbers_stay_within(s: Seq<u8>)
    ensures
        stays_within(u8_grammar(s), s),
        stays_within(i8_grammar(s), s),
        stays_within(u16_grammar(s), s),
        stays_within(u32_grammar(s), s),
        stays_within(i32_grammar(s), s),
        stays_within(u64_grammar(s), s),
        stays_within(i64_grammar(s), s),
{
    reveal(follows);
    assert(s =~= s.skip(0));
}

/// A reserved region points into its input.
pub proof fn lemma_reserved_stays_within(s: Seq<u8>, width: nat)
    ensures
        stays_within(reserved_grammar(s, width), s),
{
    lemma_field_stays_within(s, width, ());
}

/// Bytes point into their input.
pub proof fn lemma_bytes_stay_within(s: Seq<u8>, count: nat)
    ensures
        stays_within(bytes_grammar(s, count), s),
{
    reveal(follows);
    assert(s.skip(s.len() as int) =~= s.skip(s.len() - 0));
}

/// One byte.
pub open spec fn u8_grammar(s: Seq<u8>) -> Parsed<u8> {
    field(s, 1, s[0])
}

/// One byte, read as a signed number.
pub open spec fn i8_grammar(s: Seq<u8>) -> Parsed<i8> {
    field(s, 1, signed(s[0] as int, 0x100) as i8)
}

/// An unsigned 16-bit number, low byte first.
pub open spec fn u16_grammar(s: Seq<u8>) -> Parsed<u16> {
    field(s, 2, le16(s) as u16)
}

/// An unsigned 32-bit number, low byte first.
pub open spec fn u32_grammar(s: Seq<u8>) -> Parsed<u32> {
    field(s, 4, le32(s) as u32)
}

/// A signed 32-bit number, low byte first.
pub open spec fn i32_grammar(s: Seq<u8>) -> Parsed<i32> {
    field(s, 4, signed(le32(s), 0x1_0000_0000) as i32)
}

/// An unsigned 64-bit number, low byte first.
pub open spec fn u64_grammar(s: Seq<u8>) -> Parsed<u64> {
    field(s, 8, le64(s) as u64)
}

/// A signed 64-bit number, low byte first.
pub open spec fn i64_grammar(s: Seq<u8>) -> Parsed<i64> {
    field(s, 8, signed(le64(s), 0x1_0000_0000_0000_0000) as i64)
}

/// A reserved region of `width` bytes, whose content is not looked at.
pub open spec fn reserved_grammar(s: Seq<u8>, width: nat) -> Parsed<()> {
    field(s, width, ())
}

/// The next `count` bytes as they are. Where the input ends too early, the
/// failure lies at its end.
pub open spec fn bytes_grammar(s: Seq<u8>, count: nat) -> Parsed<Seq<u8>> {
    if s.len() >= count {
        Ok((s.take(count as int), s.skip(count as int)))
    } else {
        Err(failure(s.skip(s.len() as int), FailureKind::UnexpectedEof))
    }
}

/// `pattern` is how `s` begins.
pub open spec fn begins_with(s: Seq<u8>, pattern: Seq<u8>) -> bool {
    s.len() >= pattern.len() && s.take(pattern.len() as int) == pattern
}

/// The four bytes at the front of every save file: `GVAS`.
pub open spec fn magic() -> Seq<u8> {
    seq![0x47u8, 0x56u8, 0x41u8, 0x53u8]
}

/// The magic marker: present, or a failure at the front of the input.
pub open spec fn magic_grammar(s: Seq<u8>) -> Parsed<()> {
    if begins_with(s, magic()) {
        Ok(((), s.skip(4)))
    } else {
        Err(failure(s, FailureKind::BadMagic))
    }
}

/// What nom's parsers return on a byte slice with nom's default error.
pub type NomResult<'a, T> = Result<(&'a [u8], T), nom::Err<nom::error::Error<&'a [u8]>>>;

/// `nom::number::complete::le_u8`: fails on an empty input; else hands out
/// the first byte and the input after it.
#[verifier::external_body]
fn le_u8<'a>(input: &'a [u8]) -> (r: NomResult<'a, u8>)
    ensures
        r is Ok <==> input@.len() >= 1,
        r matches Ok((rest, value)) ==> rest@ == input@.skip(1) && value == input@[0],
{
    nom::number::complete::le_u8(input)
}

/// `nom::number::complete::le_i8`: fails on an empty input; else hands out
/// the first byte, cast to `i8`, and the input after it.
#[verifier::external_body]
fn le_i8<'a>(input: &'a [u8]) -> (r: NomResult<'a, i8>)
    ensures
        r is Ok <==> input@.len() >= 1,
        r matches Ok((rest, value)) ==> rest@ == input@.skip(1) && value == signed(
            input@[0] as int,
            0x100,
        ),
{
    nom::number::complete::le_i8(input)
}

/// `nom::number::complete::le_u16`: fails on fewer than two bytes; else hands
/// out the first two bytes as a number, low byte first, and the input after
/// them.
#[verifier::external_body]
fn le_u16<'a>(input: &'a [u8]) -> (r: NomResult<'a, u16>)
    ensures
        r is Ok <==> input@.len() >= 2,
        r matches Ok((rest, value)) ==> rest@ == input@.skip(2) && value == le16(input@),
{
    nom::number::complete::le_u16(input)
}

/// `nom::number::complete::le_u32`: fails on fewer than four bytes; else
/// hands out the first four bytes as a number, low byte first, and the input
/// after them.
#[verifier::external_body]
fn le_u32<'a>(input: &'a [u8]) -> (r: NomResult<'a, u32>)
    ensures
        r is Ok <==> input@.len() >= 4,
        r matches Ok((rest, value)) ==> rest@ == input@.skip(4) && value == le32(input@),
{
    nom::number::complete::le_u32(input)
}

/// `nom::number::complete::le_i32`: as `le_u32`, with the number cast to
/// `i32`.
#[verifier::external_body]
fn le_i32<'a>(input: &'a [u8]) -> (r: NomResult<'a, i32>)
    ensures
        r is Ok <==> input@.len() >= 4,
        r matches Ok((rest, value)) ==> rest@ == input@.skip(4) && value == signed(
            le32(input@),
            0x1_0000_0000,
        ),
{
    nom::number::complete::le_i32(input)
}

/// `nom::number::complete::le_u64`: fails on fewer than eight bytes; else
/// hands out the first eight bytes as a number, low byte first, and the input
/// after them.
#[verifier::external_body]
fn le_u64<'a>(input: &'a [u8]) -> (r: NomResult<'a, u64>)
    ensures
        r is Ok <==> input@.len() >= 8,
        r matches Ok((rest, value)) ==> rest@ == input@.skip(8) && value == le64(input@),
{
    nom::number::complete::le_u64(input)
}

/// `nom::number::complete::le_i64`: as `le_u64`, with the number cast to
/// `i64`.
#[verifier::external_body]
fn le_i64<'a>(input: &'a [u8]) -> (r: NomResult<'a, i64>)
    ensures
        r is Ok <==> input@.len() >= 8,
        r matches Ok((rest, value)) ==> rest@ == input@.skip(8) && value == signed(
            le64(input@),
            0x1_0000_0000_0000_0000,
        ),
{
    nom::number::complete::le_i64(input)
}

/// `nom::bytes::complete::take`: fails if the input has fewer than `count`
/// bytes; else splits it there and hands out the input after the split and
/// the bytes before it.
#[verifier::external_body]
fn take<'a>(input: &'a [u8], count: usize) -> (r: NomResult<'a, &'a [u8]>)
    ensures
        r is Ok <==> input@.len() >= count,
        r matches Ok((rest, taken)) ==> rest@ == input@.skip(count as int) && taken@
            == input@.take(count as int),
{
    nom::bytes::complete::take(count)(input)
}

/// `nom::bytes::complete::tag`: fails unless the input begins with
/// `pattern`; else splits the input after the pattern and hands out the input
/// after the split and the bytes before it.
#[verifier::external_body]
fn tag<'a>(input: &'a [u8], pattern: &[u8]) -> (r: NomResult<'a, &'a [u8]>)
    ensures
        r is Ok <==> begins_with(input@, pattern@),
        r matches Ok((rest, matched)) ==> rest@ == input@.skip(pattern@.len() as int) && matched@
            == pattern@,
{
    nom::bytes::complete::tag(pattern)(input)
}

/// Turns nom's failure on `input` into the library's: the input ended too
/// early, there.
fn or_eof<'a, T>(input: &'a [u8], outcome: NomResult<'a, T>) -> (r: ParseResult<'a, T>)
    ensures
        match outcome {
            Ok(done) => r == Ok::<(&'a [u8], T), SaveFileParseError<'a>>(done),
            Err(_) => r matches Err(e) && e@ == failure(input@, FailureKind::UnexpectedEof),
        },
{
    match outcome {
        Ok(done) => Ok(done),
        Err(_) => Err(SaveFileParseError::new(input, ParseErrorKind::UnexpectedEof)),
    }
}

/// Reads one byte.
pub fn read_u8<'a>(input: &'a [u8]) -> (r: ParseResult<'a, u8>)
    ensures
        agrees(r, u8_grammar(input@)),
{
    or_eof(input, le_u8(input))
}

/// Reads one byte as a signed number.
pub fn read_i8<'a>(input: &'a [u8]) -> (r: ParseResult<'a, i8>)
    ensures
        agrees(r, i8_grammar(input@)),
{
    or_eof(input, le_i8(input))
}

/// Reads an unsigned 16-bit number.
pub fn read_u16<'a>(input: &'a [u8]) -> (r: ParseResult<'a, u16>)
    ensures
        agrees(r, u16_grammar(input@)),
{
    or_eof(input, le_u16(input))
}

/// Reads an unsigned 32-bit number.
pub fn read_u32<'a>(input: &'a [u8]) -> (r: ParseResult<'a, u32>)
    ensures
        agrees(r, u32_grammar(input@)),
{
    or_eof(input, le_u32(input))
}

/// Reads a signed 32-bit number.
pub fn read_i32<'a>(input: &'a [u8]) -> (r: ParseResult<'a, i32>)
    ensures
        agrees(r, i32_grammar(input@)),
{
    or_eof(input, le_i32(input))
}

/// Reads an unsigned 64-bit number.
pub fn read_u64<'a>(input: &'a [u8]) -> (r: ParseResult<'a, u64>)
    ensures
        agrees(r, u64_grammar(input@)),
{
    or_eof(input, le_u64(input))
}

/// Reads a signed 64-bit number.
pub fn read_i64<'a>(input: &'a [u8]) -> (r: ParseResult<'a, i64>)
    ensures
        agrees(r, i64_grammar(input@)),
{
    or_eof(input, le_i64(input))
}

/// Passes over a reserved region of `width` bytes.
pub fn skip_reserved<'a>(input: &'a [u8], width: usize) -> (r: ParseResult<'a, ()>)
    ensures
        agrees(r, reserved_grammar(input@, width as nat)),
{
    match take(input, width) {
        Ok((rest, _)) => Ok((rest, ())),
        Err(_) => Err(SaveFileParseError::new(input, ParseErrorKind::UnexpectedEof)),
    }
}

/// Passes over the magic marker.
pub fn read_magic<'a>(input: &'a [u8]) -> (r: ParseResult<'a, ()>)
    ensures
        agrees(r, magic_grammar(input@)),
{
    let pattern: Vec<u8> = vec![0x47u8, 0x56u8, 0x41u8, 0x53u8];
    assert(pattern@ =~= magic());
    match tag(input, pattern.as_slice()) {
        Ok((rest, _)) => Ok((rest, ())),
        Err(_) => Err(SaveFileParseError::new(input, ParseErrorKind::BadMagic)),
    }
}

/// Hands out the next `count` bytes.
pub fn take_bytes<'a>(input: &'a [u8], count: usize) -> (r: ParseResult<'a, &'a [u8]>)
    ensures
        agrees(r, bytes_grammar(input@, count as nat)),
{
    match take(input, count) {
        Ok(done) => Ok(done),
        Err(_) => {
            let end = slice_subrange(input, input.len(), input.len());
            assert(end@ =~= input@.skip(input@.len() as int));
            Err(SaveFileParseError::new(end, ParseErrorKind::UnexpectedEof))
        },
    }
}

} // verus!
