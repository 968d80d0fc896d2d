//! Map properties.

use crate::collections::VecMap;
use crate::error::{agrees, in_stage, ParseErrorKind, ParseResult, SaveFileParseError, Stage};
use crate::primitives::{parse_guid, parse_string};
use crate::properties::grammar::{
    loose_bool_grammar, map_entries_grammar, map_key_grammar, map_property_grammar,
    map_value_grammar,
};
use crate::properties::parse_property_map;
use crate::properties::value::{MapPropertyKey, MapPropertyValue, Property};
use crate::text::same_text;
use crate::wire::{read_i32, read_i8, read_u32, skip_reserved};
use vstd::prelude::*;
use vstd::string::*;

verus! {

/// Decodes a map property: the key and value types, the count, the entries.
#[verifier::loop_isolation(false)]
pub fn parse_map_property<'a>(input: &'a [u8], depth: usize) -> (r: ParseResult<'a, Property>)
    ensures
        agrees(r, map_property_grammar(input@, depth as nat)),
    decreases depth, 4nat, 0nat,
{
    let stage = Stage::MapProperty;
    let (rest, key_type) = in_stage(parse_string(input), stage)?;
    let (rest, value_type) = in_stage(parse_string(rest), stage)?;
    let (rest, _) = in_stage(skip_reserved(rest, 5), stage)?;
    let (first, count) = in_stage(read_u32(rest), stage)?;
    let mut entries: VecMap<MapPropertyKey, MapPropertyValue> = VecMap::new();
    let mut rest = first;
    let mut i: u32 = 0;
    while i < count
        invariant
            i <= count,
            map_entries_grammar(
                key_type@,
                value_type@,
                first@,
                count as nat,
                depth as nat,
                Map::empty(),
            ) == map_entries_grammar(
                key_type@,
                value_type@,
                rest@,
                (count - i) as nat,
                depth as nat,
                entries@,
            ),
        decreases count - i,
    {
        let (at_value, key) = in_stage(parse_map_key(key_type.as_str(), rest), stage)?;
        let (after, value) = in_stage(
            parse_map_value(value_type.as_str(), at_value, depth),
            stage,
        )?;
        entries.bind(key, value);
        rest = after;
        i += 1;
    }
    Ok((rest, Property::MapEntries(entries)))
}

fn parse_map_key<'a>(key_type: &str, input: &'a [u8]) -> (r: ParseResult<'a, MapPropertyKey>)
    ensures
        agrees(r, map_key_grammar(key_type@, input@)),
{
    let stage = Stage::MapPropertyKey;
    if same_text(key_type, "StructProperty") {
        let (rest, guid) = in_stage(parse_guid(input), stage)?;
        Ok((rest, MapPropertyKey::Struct(guid)))
    } else if same_text(key_type, "IntProperty") {
        let (rest, value) = in_stage(read_i32(input), stage)?;
        Ok((rest, MapPropertyKey::Int(value)))
    } else {
        in_stage(
            Err(
                SaveFileParseError::new(
                    input,
                    ParseErrorKind::UnknownMapKeyType(String::from_str(key_type)),
                ),
            ),
            stage,
        )
    }
}

fn parse_map_value<'a>(value_type: &str, input: &'a [u8], depth: usize) -> (r: ParseResult<
    'a,
    MapPropertyValue,
>)
    ensures
        agrees(r, map_value_grammar(value_type@, input@, depth as nat)),
    decreases depth, 0nat, 0nat,
{
    let stage = Stage::MapPropertyValue;
    if same_text(value_type, "StructProperty") {
        if depth == 0 {
            return in_stage(
                Err(SaveFileParseError::new(input, ParseErrorKind::NestingTooDeep)),
                stage,
            );
        }
        let (rest, value) = in_stage(parse_property_map(input, depth - 1), stage)?;
        Ok((rest, MapPropertyValue::Struct(value)))
    } else if same_text(value_type, "IntProperty") {
        let (rest, value) = in_stage(read_i32(input), stage)?;
        Ok((rest, MapPropertyValue::Int(value)))
    } else if same_text(value_type, "FloatProperty") {
        let (rest, bits) = in_stage(read_u32(input), stage)?;
        Ok((rest, MapPropertyValue::Float(bits)))
    } else if same_text(value_type, "BoolProperty") {
        let (rest, value) = in_stage(parse_map_bool_property(input), stage)?;
        Ok((rest, MapPropertyValue::Bool(value)))
    } else {
        in_stage(
            Err(
                SaveFileParseError::new(
                    input,
                    ParseErrorKind::UnknownMapValueType(String::from_str(value_type)),
                ),
            ),
            stage,
        )
    }
}

fn parse_map_bool_property<'a>(input: &'a [u8]) -> (r: ParseResult<'a, bool>)
    ensures
        agrees(r, loose_bool_grammar(input@)),
{
    let (rest, byte) = in_stage(read_i8(input), Stage::MapBoolProperty)?;
    Ok((rest, byte != 0))
}

} // verus!
