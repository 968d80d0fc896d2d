//! Properties: their values and their decoders.

pub mod array;
pub mod bounds;
pub mod grammar;
pub mod map;
pub mod set;
pub mod structs;
pub mod value;

pub use array::parse_array_property;
pub use map::parse_map_property;
pub use set::parse_set_property;
pub use structs::{parse_struct_property, parse_struct_value};

pub use value::{
    ArrayPropertyValue, Delegate, MapPropertyKey, MapPropertyValue, Property, PropertyMap,
    SetPropertyValue, StructPropertyValue,
};

use crate::error::{
    agrees, follows, in_stage, ParseErrorKind, ParseResult, SaveFileParseError, Stage,
};
use crate::primitives::{lemma_string_stays_within, parse_bool, parse_string};
use crate::properties::value::{delegates_model, DelegateModel};
use crate::text::same_text;
use crate::wire::{read_i32, read_u32, skip_reserved};
use bounds::lemma_record_stays_within;
use grammar::{
    bool_property_grammar, delegate_grammar, delegates_grammar, enum_property_grammar,
    float_property_grammar, int_property_grammar, multicast_inline_delegate_property_grammar,
    name_property_grammar, object_property_grammar, property_map_grammar,
    property_value_grammar, record_grammar, records_grammar, str_property_grammar,
    uint32_property_grammar,
};
use vstd::string::*;
use vstd::prelude::*;

verus! {

/// Decodes a property bag: records up to the sentinel `None`. `depth` is the
/// number of further levels of bags that may lie inside this one.
#[verifier::loop_isolation(false)]
pub fn parse_property_map<'a>(input: &'a [u8], depth: usize) -> (r: ParseResult<'a, PropertyMap>)
    ensures
        agrees(r, property_map_grammar(input@, depth as nat)),
    decreases depth, 8nat, 0nat,
{
    let stage = Stage::PropertyMap;
    let mut properties: PropertyMap = PropertyMap::new();
    let mut rest = input;
    loop
        invariant
            records_grammar(input@, depth as nat, Map::empty()) == records_grammar(
                rest@,
                depth as nat,
                properties@,
            ),
        decreases rest@.len(),
    {
        if rest.len() == 0 {
            return in_stage(
                Err(SaveFileParseError::new(rest, ParseErrorKind::MissingSentinel)),
                stage,
            );
        }
        let (after_name, name) = in_stage(parse_string(rest), stage)?;
        if same_text(name.as_str(), "None") {
            return Ok((after_name, properties));
        }
        let (after_record, value) = in_stage(parse_record(after_name, depth), stage)?;
        properties.bind(name, value);
        proof {
            reveal(follows);
            lemma_string_stays_within(rest@);
            lemma_record_stays_within(after_name@, depth as nat);
        }
        rest = after_record;
    }
}

/// Decodes what follows the name in a property record: the type tag, eight
/// reserved bytes, the value.
fn parse_record<'a>(input: &'a [u8], depth: usize) -> (r: ParseResult<'a, Property>)
    ensures
        agrees(r, record_grammar(input@, depth as nat)),
    decreases depth, 6nat, 0nat,
{
    let stage = Stage::Property;
    let (rest, tag) = in_stage(parse_string(input), stage)?;
    let (rest, _) = in_stage(skip_reserved(rest, 8), stage)?;
    in_stage(parse_property_value(tag.as_str(), rest, depth), stage)
}

/// Decodes the value of a property whose type tag is `property_type`.
pub fn parse_property_value<'a>(property_type: &str, input: &'a [u8], depth: usize) -> (r:
    ParseResult<'a, Property>)
    ensures
        agrees(r, property_value_grammar(property_type@, input@, depth as nat)),
    decreases depth, 5nat, 0nat,
{
    if same_text(property_type, "IntProperty") {
        parse_int_property(input)
    } else if same_text(property_type, "UInt32Property") {
        parse_uint32_property(input)
    } else if same_text(property_type, "BoolProperty") {
        parse_bool_property(input)
    } else if same_text(property_type, "StructProperty") {
        parse_struct_property(input, depth)
    } else if same_text(property_type, "ArrayProperty") {
        parse_array_property(input, depth)
    } else if same_text(property_type, "FloatProperty") {
        parse_float_property(input)
    } else if same_text(property_type, "StrProperty") {
        parse_str_property(input)
    } else if same_text(property_type, "MulticastInlineDelegateProperty") {
        parse_multicast_inline_delegate_property(input)
    } else if same_text(property_type, "MapProperty") {
        parse_map_property(input, depth)
    } else if same_text(property_type, "SetProperty") {
        parse_set_property(input)
    } else if same_text(property_type, "ObjectProperty") {
        parse_object_property(input)
    } else if same_text(property_type, "EnumProperty") {
        parse_enum_property(input)
    } else if same_text(property_type, "NameProperty") {
        parse_name_property(input)
    } else {
        Err(
            SaveFileParseError::new(
                input,
                ParseErrorKind::UnknownPropertyType(String::from_str(property_type)),
            ),
        )
    }
}

fn parse_int_property<'a>(input: &'a [u8]) -> (r: ParseResult<'a, Property>)
    ensures
        agrees(r, int_property_grammar(input@)),
{
    let stage = Stage::IntProperty;
    let (rest, _) = in_stage(skip_reserved(input, 1), stage)?;
    let (rest, value) = in_stage(read_i32(rest), stage)?;
    Ok((rest, Property::Int(value)))
}

fn parse_uint32_property<'a>(input: &'a [u8]) -> (r: ParseResult<'a, Property>)
    ensures
        agrees(r, uint32_property_grammar(input@)),
{
    let stage = Stage::UInt32Property;
    let (rest, _) = in_stage(skip_reserved(input, 1), stage)?;
    let (rest, value) = in_stage(read_u32(rest), stage)?;
    Ok((rest, Property::UInt32(value)))
}

fn parse_bool_property<'a>(input: &'a [u8]) -> (r: ParseResult<'a, Property>)
    ensures
        agrees(r, bool_property_grammar(input@)),
{
    let stage = Stage::BoolProperty;
    let (rest, _) = in_stage(skip_reserved(input, 1), stage)?;
    let (rest, value) = in_stage(parse_bool(rest), stage)?;
    Ok((rest, Property::Bool(value)))
}

fn parse_float_property<'a>(input: &'a [u8]) -> (r: ParseResult<'a, Property>)
    ensures
        agrees(r, float_property_grammar(input@)),
{
    let stage = Stage::FloatProperty;
    let (rest, _) = in_stage(skip_reserved(input, 1), stage)?;
    let (rest, bits) = in_stage(read_u32(rest), stage)?;
    Ok((rest, Property::Float(bits)))
}

fn parse_str_property<'a>(input: &'a [u8]) -> (r: ParseResult<'a, Property>)
    ensures
        agrees(r, str_property_grammar(input@)),
{
    let stage = Stage::StrProperty;
    let (rest, _) = in_stage(skip_reserved(input, 1), stage)?;
    let (rest, text) = in_stage(parse_string(rest), stage)?;
    Ok((rest, Property::Str(text)))
}

fn parse_name_property<'a>(input: &'a [u8]) -> (r: ParseResult<'a, Property>)
    ensures
        agrees(r, name_property_grammar(input@)),
{
    let stage = Stage::NameProperty;
    let (rest, _) = in_stage(skip_reserved(input, 1), stage)?;
    let (rest, text) = in_stage(parse_string(rest), stage)?;
    Ok((rest, Property::Name(text)))
}

fn parse_object_property<'a>(input: &'a [u8]) -> (r: ParseResult<'a, Property>)
    ensures
        agrees(r, object_property_grammar(input@)),
{
    let stage = Stage::ObjectProperty;
    let (rest, _) = in_stage(skip_reserved(input, 1), stage)?;
    let (rest, path) = in_stage(parse_string(rest), stage)?;
    Ok((rest, Property::Object(path)))
}

fn parse_enum_property<'a>(input: &'a [u8]) -> (r: ParseResult<'a, Property>)
    ensures
        agrees(r, enum_property_grammar(input@)),
{
    let stage = Stage::EnumProperty;
    let (rest, name) = in_stage(parse_string(input), stage)?;
    let (rest, _) = in_stage(skip_reserved(rest, 1), stage)?;
    let (rest, value) = in_stage(parse_string(rest), stage)?;
    Ok((rest, Property::Enum { name, value }))
}

fn parse_delegate<'a>(input: &'a [u8]) -> (r: ParseResult<'a, Delegate>)
    ensures
        agrees(r, delegate_grammar(input@)),
{
    let (rest, object_path) = parse_string(input)?;
    let (rest, function_name) = parse_string(rest)?;
    Ok((rest, Delegate { object_path, function_name }))
}

#[verifier::loop_isolation(false)]
fn parse_multicast_inline_delegate_property<'a>(input: &'a [u8]) -> (r: ParseResult<'a, Property>)
    ensures
        agrees(r, multicast_inline_delegate_property_grammar(input@)),
{
    let stage = Stage::MulticastInlineDelegateProperty;
    let (rest, _) = in_stage(skip_reserved(input, 1), stage)?;
    let (first, count) = in_stage(read_u32(rest), stage)?;
    let mut delegates: Vec<Delegate> = Vec::new();
    let mut rest = first;
    let mut i: u32 = 0;
    assert(delegates_model(delegates@) =~= Seq::<DelegateModel>::empty());
    while i < count
        invariant
            i <= count,
            delegates_grammar(first@, count as nat, Seq::empty()) == delegates_grammar(
                rest@,
                (count - i) as nat,
                delegates_model(delegates@),
            ),
        decreases count - i,
    {
        let (after, delegate) = in_stage(parse_delegate(rest), stage)?;
        proof {
            assert(delegates_model(delegates@.push(delegate)) =~= delegates_model(
                delegates@,
            ).push(delegate@));
        }
        delegates.push(delegate);
        rest = after;
        i += 1;
    }
    Ok((rest, Property::MulticastInlineDelegate(delegates)))
}

} // verus!
