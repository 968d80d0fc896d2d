//! Struct properties.

use crate::error::{agrees, in_stage, ParseErrorKind, ParseResult, SaveFileParseError, Stage};
use crate::primitives::{parse_guid, parse_string};
use crate::properties::grammar::{struct_property_grammar, struct_value_grammar};
use crate::properties::parse_property_map;
use crate::properties::value::{Property, StructPropertyValue};
use crate::text::same_text;
use crate::wire::{read_i64, skip_reserved};
use vstd::prelude::*;
use vstd::string::*;

verus! {

/// Decodes a struct property: its type, then its body.
pub fn parse_struct_property<'a>(input: &'a [u8], depth: usize) -> (r: ParseResult<'a, Property>)
    ensures
        agrees(r, struct_property_grammar(input@, depth as nat)),
    decreases depth, 3nat, 0nat,
{
    let stage = Stage::StructProperty;
    let (rest, struct_type) = in_stage(parse_string(input), stage)?;
    let (rest, _) = in_stage(skip_reserved(rest, 17), stage)?;
    let (rest, value) = in_stage(parse_struct_value(struct_type.as_str(), rest, depth), stage)?;
    Ok((rest, Property::Struct(value)))
}

/// Decodes the body of a struct of type `struct_type`.
pub fn parse_struct_value<'a>(struct_type: &str, input: &'a [u8], depth: usize) -> (r: ParseResult<
    'a,
    StructPropertyValue,
>)
    ensures
        agrees(r, struct_value_grammar(struct_type@, input@, depth as nat)),
    decreases depth, 0nat, 0nat,
{
    if same_text(struct_type, "Guid") {
        let (rest, guid) = parse_guid(input)?;
        Ok((rest, StructPropertyValue::Guid(guid)))
    } else if same_text(struct_type, "DateTime") {
        let (rest, ticks) = read_i64(input)?;
        Ok((rest, StructPropertyValue::DateTime(ticks)))
    } else if depth == 0 {
        Err(SaveFileParseError::new(input, ParseErrorKind::NestingTooDeep))
    } else {
        let (rest, value) = parse_property_map(input, depth - 1)?;
        Ok((rest, StructPropertyValue::Foreign { name: String::from_str(struct_type), value }))
    }
}

} // verus!
