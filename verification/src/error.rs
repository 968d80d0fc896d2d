//! Decode failures: where, while decoding what, and why.

use crate::text::{
    decimal, decode_lossy, push_decimal, push_signed_decimal, signed_decimal, utf8_lossy_text,
};
use vstd::prelude::*;
use vstd::slice::*;
use vstd::string::*;

verus! {

/// A named stage of the decoder. A failure records the stages that were open
/// when it happened.
#[derive(Clone, Copy, Debug, PartialEq, Eq)]
pub enum Stage {
    String,
    Guid,
    Bool,
    Metadata,
    CustomFormatData,
    PropertyMap,
    Property,
    IntProperty,
    UInt32Property,
    BoolProperty,
    FloatProperty,
    StrProperty,
    NameProperty,
    ObjectProperty,
    EnumProperty,
    StructProperty,
    ArrayProperty,
    StructArray,
    IntArray,
    ObjectArray,
    MapProperty,
    MapPropertyKey,
    MapPropertyValue,
    MapBoolProperty,
    SetProperty,
    MulticastInlineDelegateProperty,
}

impl Stage {
    /// The stage's name as it is shown to a reader.
    pub open spec fn label(self) -> Seq<char> {
        match self {
            Stage::String => "string"@,
            Stage::Guid => "guid"@,
            Stage::Bool => "bool"@,
            Stage::Metadata => "metadata"@,
            Stage::CustomFormatData => "custom format data"@,
            Stage::PropertyMap => "property map"@,
            Stage::Property => "property"@,
            Stage::IntProperty => "int property"@,
            Stage::UInt32Property => "uint32 property"@,
            Stage::BoolProperty => "bool property"@,
            Stage::FloatProperty => "float property"@,
            Stage::StrProperty => "str property"@,
            Stage::NameProperty => "name property"@,
            Stage::ObjectProperty => "object property"@,
            Stage::EnumProperty => "enum property"@,
            Stage::StructProperty => "struct property"@,
            Stage::ArrayProperty => "array property"@,
            Stage::StructArray => "struct array"@,
            Stage::IntArray => "int array"@,
            Stage::ObjectArray => "object array"@,
            Stage::MapProperty => "map property"@,
            Stage::MapPropertyKey => "map property key"@,
            Stage::MapPropertyValue => "map property value"@,
            Stage::MapBoolProperty => "map bool property"@,
            Stage::SetProperty => "set property"@,
            Stage::MulticastInlineDelegateProperty => "multicast inline delegate property"@,
        }
    }

    /// The stage's name as it is shown to a reader.
    pub fn name(self) -> (text: &'static str)
        ensures
            text@ == self.label(),
    {
        match self {
            Stage::String => "string",
            Stage::Guid => "guid",
            Stage::Bool => "bool",
            Stage::Metadata => "metadata",
            Stage::CustomFormatData => "custom format data",
            Stage::PropertyMap => "property map",
            Stage::Property => "property",
            Stage::IntProperty => "int property",
            Stage::UInt32Property => "uint32 property",
            Stage::BoolProperty => "bool property",
            Stage::FloatProperty => "float property",
            Stage::StrProperty => "str property",
            Stage::NameProperty => "name property",
            Stage::ObjectProperty => "object property",
            Stage::EnumProperty => "enum property",
            Stage::StructProperty => "struct property",
            Stage::ArrayProperty => "array property",
            Stage::StructArray => "struct array",
            Stage::IntArray => "int array",
            Stage::ObjectArray => "object array",
            Stage::MapProperty => "map property",
            Stage::MapPropertyKey => "map property key",
            Stage::MapPropertyValue => "map property value",
            Stage::MapBoolProperty => "map bool property",
            Stage::SetProperty => "set property",
            Stage::MulticastInlineDelegateProperty => "multicast inline delegate property",
        }
    }
}

/// The three families of decode failure.
#[derive(Clone, Copy, Debug, PartialEq, Eq)]
pub enum ErrorCategory {
    /// The file's frame is broken: wrong magic, input that ends too early, a
    /// property bag without its sentinel, nesting beyond the limit.
    Structure,
    /// A value is framed correctly but its content is not acceptable: text
    /// that is not UTF-8 or UTF-16, a string length outside the window, a
    /// boolean byte other than 0 or 1.
    Encoding,
    /// A type tag that selects a decoder names none of them.
    UnknownTag,
}

/// Why a decode failed, with text as `String`.
#[derive(Debug)]
pub enum ParseErrorKind {
    BadMagic,
    UnexpectedEof,
    MissingSentinel,
    NestingTooDeep,
    StringLength(i32),
    InvalidUtf8,
    InvalidUtf16,
    InvalidBool(u8),
    UnknownPropertyType(String),
    UnknownArrayType(String),
    UnknownStructArrayType(String),
    UnknownMapKeyType(String),
    UnknownMapValueType(String),
    UnknownSetType(String),
}

/// Why a decode failed: the mathematical value of a [`ParseErrorKind`].
pub enum FailureKind {
    /// The input does not begin with the four bytes `GVAS`.
    BadMagic,
    /// The input ends inside a field.
    UnexpectedEof,
    /// The input ends where a property bag needs its next name or its sentinel.
    MissingSentinel,
    /// A nested property bag lies deeper than the decoder was allowed to go.
    NestingTooDeep,
    /// A string's length field is outside the accepted window.
    StringLength(i32),
    /// A narrow string's bytes are not valid UTF-8.
    InvalidUtf8,
    /// A wide string's code units are not valid UTF-16.
    InvalidUtf16,
    /// A strict boolean byte is neither 0 nor 1.
    InvalidBool(u8),
    /// A property record's type tag is not one of the known property types.
    UnknownPropertyType(Seq<char>),
    /// An array's element type tag is not one of the known element types.
    UnknownArrayType(Seq<char>),
    /// The repeated tag in the header of an array of structs is not `StructProperty`.
    UnknownStructArrayType(Seq<char>),
    /// A map's key type tag is not one of the known key types.
    UnknownMapKeyType(Seq<char>),
    /// A map's value type tag is not one of the known value types.
    UnknownMapValueType(Seq<char>),
    /// A set's element type tag is not one of the known element types.
    UnknownSetType(Seq<char>),
}

impl FailureKind {
    /// The family that the cause belongs to.
    pub open spec fn category(self) -> ErrorCategory {
        match self {
            FailureKind::BadMagic => ErrorCategory::Structure,
            FailureKind::UnexpectedEof => ErrorCategory::Structure,
            FailureKind::MissingSentinel => ErrorCategory::Structure,
            FailureKind::NestingTooDeep => ErrorCategory::Structure,
            FailureKind::StringLength(_) => ErrorCategory::Encoding,
            FailureKind::InvalidUtf8 => ErrorCategory::Encoding,
            FailureKind::InvalidUtf16 => ErrorCategory::Encoding,
            FailureKind::InvalidBool(_) => ErrorCategory::Encoding,
            FailureKind::UnknownPropertyType(_) => ErrorCategory::UnknownTag,
            FailureKind::UnknownArrayType(_) => ErrorCategory::UnknownTag,
            FailureKind::UnknownStructArrayType(_) => ErrorCategory::UnknownTag,
            FailureKind::UnknownMapKeyType(_) => ErrorCategory::UnknownTag,
            FailureKind::UnknownMapValueType(_) => ErrorCategory::UnknownTag,
            FailureKind::UnknownSetType(_) => ErrorCategory::UnknownTag,
        }
    }
}

impl FailureKind {
    /// The cause in words.
    pub open spec fn description(self) -> Seq<char> {
        match self {
            FailureKind::BadMagic => "Missing GVAS marker"@,
            FailureKind::UnexpectedEof => "Unexpected end of input"@,
            FailureKind::MissingSentinel => "Missing None sentinel"@,
            FailureKind::NestingTooDeep => "Nesting too deep"@,
            FailureKind::StringLength(length) => "Invalid string length "@ + signed_decimal(
                length as int,
            ),
            FailureKind::InvalidUtf8 => "Invalid UTF-8 sequence"@,
            FailureKind::InvalidUtf16 => "Invalid UTF-16 sequence"@,
            FailureKind::InvalidBool(byte) => "Invalid boolean value "@ + decimal(byte as nat),
            FailureKind::UnknownPropertyType(tag) => "Unhandled property type "@ + tag,
            FailureKind::UnknownArrayType(tag) => "Unhandled array property type "@ + tag,
            FailureKind::UnknownStructArrayType(tag) => "Unhandled struct array property type "@
                + tag,
            FailureKind::UnknownMapKeyType(tag) => "Unhandled map property key type "@ + tag,
            FailureKind::UnknownMapValueType(tag) => "Unhandled map property value type "@ + tag,
            FailureKind::UnknownSetType(tag) => "Unhandled set property type "@ + tag,
        }
    }
}

impl View for ParseErrorKind {
    type V = FailureKind;

    open spec fn view(&self) -> FailureKind {
        match *self {
            ParseErrorKind::BadMagic => FailureKind::BadMagic,
            ParseErrorKind::UnexpectedEof => FailureKind::UnexpectedEof,
            ParseErrorKind::MissingSentinel => FailureKind::MissingSentinel,
            ParseErrorKind::NestingTooDeep => FailureKind::NestingTooDeep,
            ParseErrorKind::StringLength(l) => FailureKind::StringLength(l),
            ParseErrorKind::InvalidUtf8 => FailureKind::InvalidUtf8,
            ParseErrorKind::InvalidUtf16 => FailureKind::InvalidUtf16,
            ParseErrorKind::InvalidBool(b) => FailureKind::InvalidBool(b),
            ParseErrorKind::UnknownPropertyType(t) => FailureKind::UnknownPropertyType(t@),
            ParseErrorKind::UnknownArrayType(t) => FailureKind::UnknownArrayType(t@),
            ParseErrorKind::UnknownStructArrayType(t) => FailureKind::UnknownStructArrayType(t@),
            ParseErrorKind::UnknownMapKeyType(t) => FailureKind::UnknownMapKeyType(t@),
            ParseErrorKind::UnknownMapValueType(t) => FailureKind::UnknownMapValueType(t@),
            ParseErrorKind::UnknownSetType(t) => FailureKind::UnknownSetType(t@),
        }
    }
}

impl ParseErrorKind {
    /// The cause in words.
    pub fn describe(&self) -> (text: String)
        ensures
            text@ == self@.description(),
    {
        match self {
            ParseErrorKind::BadMagic => String::from_str("Missing GVAS marker"),
            ParseErrorKind::UnexpectedEof => String::from_str("Unexpected end of input"),
            ParseErrorKind::MissingSentinel => String::from_str("Missing None sentinel"),
            ParseErrorKind::NestingTooDeep => String::from_str("Nesting too deep"),
            ParseErrorKind::StringLength(length) => {
                let mut text = String::from_str("Invalid string length ");
                push_signed_decimal(&mut text, *length);
                text
            },
            ParseErrorKind::InvalidUtf8 => String::from_str("Invalid UTF-8 sequence"),
            ParseErrorKind::InvalidUtf16 => String::from_str("Invalid UTF-16 sequence"),
            ParseErrorKind::InvalidBool(byte) => {
                let mut text = String::from_str("Invalid boolean value ");
                push_decimal(&mut text, *byte as u32);
                text
            },
            ParseErrorKind::UnknownPropertyType(tag) => String::from_str(
                "Unhandled property type ",
            ).concat(tag.as_str()),
            ParseErrorKind::UnknownArrayType(tag) => String::from_str(
                "Unhandled array property type ",
            ).concat(tag.as_str()),
            ParseErrorKind::UnknownStructArrayType(tag) => String::from_str(
                "Unhandled struct array property type ",
            ).concat(tag.as_str()),
            ParseErrorKind::UnknownMapKeyType(tag) => String::from_str(
                "Unhandled map property key type ",
            ).concat(tag.as_str()),
            ParseErrorKind::UnknownMapValueType(tag) => String::from_str(
                "Unhandled map property value type ",
            ).concat(tag.as_str()),
            ParseErrorKind::UnknownSetType(tag) => String::from_str(
                "Unhandled set property type ",
            ).concat(tag.as_str()),
        }
    }

    /// The family that the cause belongs to.
    pub fn category(&self) -> (c: ErrorCategory)
        ensures
            c == self@.category(),
    {
        match self {
            ParseErrorKind::BadMagic => ErrorCategory::Structure,
            ParseErrorKind::UnexpectedEof => ErrorCategory::Structure,
            ParseErrorKind::MissingSentinel => ErrorCategory::Structure,
            ParseErrorKind::NestingTooDeep => ErrorCategory::Structure,
            ParseErrorKind::StringLength(_) => ErrorCategory::Encoding,
            ParseErrorKind::InvalidUtf8 => ErrorCategory::Encoding,
            ParseErrorKind::InvalidUtf16 => ErrorCategory::Encoding,
            ParseErrorKind::InvalidBool(_) => ErrorCategory::Encoding,
            ParseErrorKind::UnknownPropertyType(_) => ErrorCategory::UnknownTag,
            ParseErrorKind::UnknownArrayType(_) => ErrorCategory::UnknownTag,
            ParseErrorKind::UnknownStructArrayType(_) => ErrorCategory::UnknownTag,
            ParseErrorKind::UnknownMapKeyType(_) => ErrorCategory::UnknownTag,
            ParseErrorKind::UnknownMapValueType(_) => ErrorCategory::UnknownTag,
            ParseErrorKind::UnknownSetType(_) => ErrorCategory::UnknownTag,
        }
    }
}

/// A decode failure as a mathematical value.
pub struct ParseFailure {
    /// The input that was left where the decoder gave up.
    pub input: Seq<u8>,
    /// The stages that were open, outermost first, innermost last.
    pub context: Seq<Stage>,
    /// The cause.
    pub kind: FailureKind,
}

/// The names of `stages`, joined by ` -> `.
pub open spec fn trail(stages: Seq<Stage>) -> Seq<char>
    decreases stages.len(),
{
    if stages.len() == 0 {
        Seq::empty()
    } else if stages.len() == 1 {
        stages[0].label()
    } else {
        trail(stages.drop_last()) + " -> "@ + stages.last().label()
    }
}

impl ParseFailure {
    /// The bytes at which the decoder gave up: the first sixteen, or all
    /// where fewer are left.
    pub open spec fn preview(self) -> Seq<u8> {
        if self.input.len() <= 16 {
            self.input
        } else {
            self.input.take(16)
        }
    }

    /// The failure as a reader sees it, with the preview shown as
    /// `preview_text`: the stages from the outermost to the innermost, the
    /// cause, the preview.
    pub open spec fn rendered(self, preview_text: Seq<char>) -> Seq<char> {
        "Context\n\t"@ + trail(self.context) + "\nError Stack\n\t"@ + self.kind.description()
            + "\nNext 16 Bytes\n\t"@ + preview_text + "\n"@
    }

    /// The same failure, seen from the stage that encloses it.
    pub open spec fn within(self, stage: Stage) -> ParseFailure {
        ParseFailure { input: self.input, context: seq![stage] + self.context, kind: self.kind }
    }
}

/// What a grammar yields on an input: a value and the input left after it, or
/// a failure.
pub type Parsed<T> = Result<(T, Seq<u8>), ParseFailure>;

/// `rest` is what is left of `s` after some bytes at its front.
#[verifier::opaque]
pub open spec fn follows(rest: Seq<u8>, s: Seq<u8>) -> bool {
    rest.len() <= s.len() && rest == s.skip(s.len() - rest.len())
}

/// An outcome on the input `s` that points into `s`: what a success leaves,
/// and where a failure lies, is what is left of `s` after some bytes at its
/// front.
pub open spec fn stays_within<T>(outcome: Parsed<T>, s: Seq<u8>) -> bool {
    match outcome {
        Ok((_, rest)) => follows(rest, s),
        Err(f) => follows(f.input, s),
    }
}

/// The whole of `s` is left of `s` after no bytes.
pub proof fn lemma_follows_reflexive(s: Seq<u8>)
    ensures
        follows(s, s),
{
    reveal(follows);
    assert(s =~= s.skip(0));
}

/// What is left of what is left of `c` is left of `c`.
pub proof fn lemma_follows_transitive(a: Seq<u8>, b: Seq<u8>, c: Seq<u8>)
    requires
        follows(a, b),
        follows(b, c),
    ensures
        follows(a, c),
{
    reveal(follows);
    assert(a =~= c.skip(c.len() - a.len()));
}

/// An outcome that points into what is left of `s` points into `s`.
pub proof fn lemma_stays_within_lift<T>(outcome: Parsed<T>, mid: Seq<u8>, s: Seq<u8>)
    requires
        stays_within(outcome, mid),
        follows(mid, s),
    ensures
        stays_within(outcome, s),
{
    match outcome {
        Ok((_, rest)) => lemma_follows_transitive(rest, mid, s),
        Err(f) => lemma_follows_transitive(f.input, mid, s),
    }
}

/// A failure at `input` with no stage recorded yet.
pub open spec fn failure(input: Seq<u8>, kind: FailureKind) -> ParseFailure {
    ParseFailure { input, context: Seq::empty(), kind }
}

/// A grammar's outcome, with `stage` recorded on a failure.
pub open spec fn within<T>(outcome: Parsed<T>, stage: Stage) -> Parsed<T> {
    match outcome {
        Ok(done) => Ok(done),
        Err(f) => Err(f.within(stage)),
    }
}

/// A decode failure. `input` is the part of the decoded buffer that was left
/// where the decoder gave up.
#[derive(Debug)]
pub struct SaveFileParseError<'a> {
    pub input: &'a [u8],
    pub context: Vec<Stage>,
    pub kind: ParseErrorKind,
}

impl<'a> View for SaveFileParseError<'a> {
    type V = ParseFailure;

    open spec fn view(&self) -> ParseFailure {
        ParseFailure { input: self.input@, context: self.context@, kind: self.kind@ }
    }
}

/// What a decoder returns: the input left and the value, or the failure.
pub type ParseResult<'a, T> = Result<(&'a [u8], T), SaveFileParseError<'a>>;

/// The decoder's outcome `got` is the grammar's outcome `expected`.
pub open spec fn agrees<'a, T: View>(got: ParseResult<'a, T>, expected: Parsed<T::V>) -> bool {
    match got {
        Ok((rest, value)) => expected == Ok::<(T::V, Seq<u8>), ParseFailure>((value@, rest@)),
        Err(e) => expected == Err::<(T::V, Seq<u8>), ParseFailure>(e@),
    }
}

impl<'a> SaveFileParseError<'a> {
    /// A failure at `input` with no stage recorded yet.
    pub fn new(input: &'a [u8], kind: ParseErrorKind) -> (e: Self)
        ensures
            e@ == failure(input@, kind@),
    {
        SaveFileParseError { input, context: Vec::new(), kind }
    }

    /// The bytes at which the decoder gave up.
    pub fn preview(&self) -> (bytes: &'a [u8])
        ensures
            bytes@ == self@.preview(),
    {
        if self.input.len() <= 16 {
            self.input
        } else {
            let bytes = slice_subrange(self.input, 0, 16);
            assert(bytes@ =~= self.input@.take(16));
            bytes
        }
    }

    /// The names of the stages that were open, from the outermost to the
    /// innermost, joined by ` -> `.
    pub fn context_trail(&self) -> (text: String)
        ensures
            text@ == trail(self@.context),
    {
        let mut text = String::new();
        let mut i: usize = 0;
        assert(self.context@.take(0) =~= Seq::<Stage>::empty());
        while i < self.context.len()
            invariant
                i <= self.context@.len(),
                text@ == trail(self.context@.take(i as int)),
            decreases self.context@.len() - i,
        {
            if i > 0 {
                text.append(" -> ");
            }
            text.append(self.context[i].name());
            proof {
                let next = self.context@.take(i + 1);
                assert(next.drop_last() =~= self.context@.take(i as int));
                assert(next.last() == self.context@[i as int]);
                if i == 0 {
                    assert(text@ =~= next[0].label());
                } else {
                    assert(text@ =~= trail(next.drop_last()) + " -> "@ + next.last().label());
                }
            }
            i += 1;
        }
        assert(self.context@.take(i as int) =~= self.context@);
        text
    }

    /// The failure as a reader sees it, with the preview shown as
    /// `preview_text`.
    pub fn render(&self, preview_text: &str) -> (text: String)
        ensures
            text@ == self@.rendered(preview_text@),
    {
        let mut text = String::from_str("Context\n\t");
        text.append(self.context_trail().as_str());
        text.append("\nError Stack\n\t");
        text.append(self.kind.describe().as_str());
        text.append("\nNext 16 Bytes\n\t");
        text.append(preview_text);
        text.append("\n");
        text
    }

    /// The failure as a reader sees it, with the preview decoded as UTF-8
    /// as far as it can be.
    pub fn to_string(&self) -> (text: String)
        ensures
            text@ == self@.rendered(utf8_lossy_text(self@.preview())),
    {
        let preview_text = decode_lossy(self.preview());
        self.render(preview_text.as_str())
    }

    /// Records the stage that encloses the stages recorded so far.
    pub fn add_context(self, stage: Stage) -> (e: Self)
        ensures
            e@ == self@.within(stage),
    {
        let mut context = self.context;
        context.insert(0, stage);
        assert(context@ =~= seq![stage] + self.context@);
        SaveFileParseError { input: self.input, context, kind: self.kind }
    }
}

/// Records `stage` on the failure, if `outcome` is one.
pub fn in_stage<'a, T>(outcome: ParseResult<'a, T>, stage: Stage) -> (out: ParseResult<'a, T>)
    ensures
        match outcome {
            Ok(done) => out == Ok::<(&'a [u8], T), SaveFileParseError<'a>>(done),
            Err(e) => out matches Err(staged) && staged@ == e@.within(stage),
        },
{
    match outcome {
        Ok(done) => Ok(done),
        Err(e) => Err(e.add_context(stage)),
    }
}

} // verus!
