//! Array properties.

use crate::error::{agrees, in_stage, ParseErrorKind, ParseResult, SaveFileParseError, Stage};
use crate::primitives::parse_string;
use crate::properties::grammar::{
    array_items_grammar, array_property_grammar, int_array_grammar, int_items_grammar,
    object_array_grammar, object_items_grammar, struct_array_grammar, struct_items_grammar,
};
use crate::properties::structs::parse_struct_value;
use crate::properties::value::{
    array_model, lemma_array_model_push, ArrayPropertyValue, ArrayValueModel, Property,
};
use crate::text::same_text;
use crate::wire::{read_i32, read_u32, read_u64, skip_reserved};
use vstd::prelude::*;
use vstd::string::*;

verus! {

/// Decodes an array property: the element type, the count, the elements.
pub fn parse_array_property<'a>(input: &'a [u8], depth: usize) -> (r: ParseResult<'a, Property>)
    ensures
        agrees(r, array_property_grammar(input@, depth as nat)),
    decreases depth, 4nat, 0nat,
{
    let stage = Stage::ArrayProperty;
    let (rest, element_type) = in_stage(parse_string(input), stage)?;
    let (rest, _) = in_stage(skip_reserved(rest, 1), stage)?;
    let (rest, count) = in_stage(read_u32(rest), stage)?;
    let (rest, items) = in_stage(
        parse_array_items(element_type.as_str(), rest, count, depth),
        stage,
    )?;
    Ok((rest, Property::Array(items)))
}

fn parse_array_items<'a>(element_type: &str, input: &'a [u8], count: u32, depth: usize) -> (r:
    ParseResult<'a, Vec<ArrayPropertyValue>>)
    ensures
        match r {
            Ok((rest, items)) => array_items_grammar(
                element_type@,
                input@,
                count as nat,
                depth as nat,
            ) == Ok::<_, crate::error::ParseFailure>((array_model(items@), rest@)),
            Err(e) => array_items_grammar(element_type@, input@, count as nat, depth as nat)
                == Err::<(Seq<ArrayValueModel>, Seq<u8>), _>(e@),
        },
    decreases depth, 3nat, 0nat,
{
    if same_text(element_type, "StructProperty") {
        parse_struct_array(input, count, depth)
    } else if same_text(element_type, "IntProperty") {
        parse_int_array(input, count)
    } else if same_text(element_type, "ObjectProperty") {
        parse_object_array(input, count)
    } else {
        Err(
            SaveFileParseError::new(
                input,
                ParseErrorKind::UnknownArrayType(String::from_str(element_type)),
            ),
        )
    }
}

#[verifier::loop_isolation(false)]
fn parse_struct_array<'a>(input: &'a [u8], count: u32, depth: usize) -> (r: ParseResult<
    'a,
    Vec<ArrayPropertyValue>,
>)
    ensures
        match r {
            Ok((rest, items)) => struct_array_grammar(input@, count as nat, depth as nat) == Ok::<
                _,
                crate::error::ParseFailure,
            >((array_model(items@), rest@)),
            Err(e) => struct_array_grammar(input@, count as nat, depth as nat) == Err::<
                (Seq<ArrayValueModel>, Seq<u8>),
                _,
            >(e@),
        },
    decreases depth, 2nat, 0nat,
{
    let stage = Stage::StructArray;
    let (at_tag, _) = in_stage(parse_string(input), stage)?;
    let (rest, tag) = in_stage(parse_string(at_tag), stage)?;
    if !same_text(tag.as_str(), "StructProperty") {
        return in_stage(
            Err(SaveFileParseError::new(at_tag, ParseErrorKind::UnknownStructArrayType(tag))),
            stage,
        );
    }
    let (rest, _) = in_stage(read_u64(rest), stage)?;
    let (rest, struct_type) = in_stage(parse_string(rest), stage)?;
    let (first, _) = in_stage(skip_reserved(rest, 17), stage)?;
    let mut items: Vec<ArrayPropertyValue> = Vec::new();
    let mut rest = first;
    let mut i: u32 = 0;
    assert(array_model(items@) =~= Seq::<ArrayValueModel>::empty());
    while i < count
        invariant
            i <= count,
            struct_items_grammar(
                struct_type@,
                first@,
                count as nat,
                depth as nat,
                Seq::empty(),
            ) == struct_items_grammar(
                struct_type@,
                rest@,
                (count - i) as nat,
                depth as nat,
                array_model(items@),
            ),
        decreases count - i,
    {
        let (after, value) = in_stage(
            parse_struct_value(struct_type.as_str(), rest, depth),
            stage,
        )?;
        let item = ArrayPropertyValue::Struct(value);
        proof {
            lemma_array_model_push(items@, item);
        }
        items.push(item);
        rest = after;
        i += 1;
    }
    Ok((rest, items))
}

#[verifier::loop_isolation(false)]
fn parse_int_array<'a>(input: &'a [u8], count: u32) -> (r: ParseResult<
    'a,
    Vec<ArrayPropertyValue>,
>)
    ensures
        match r {
            Ok((rest, items)) => int_array_grammar(input@, count as nat) == Ok::<
                _,
                crate::error::ParseFailure,
            >((array_model(items@), rest@)),
            Err(e) => int_array_grammar(input@, count as nat) == Err::<
                (Seq<ArrayValueModel>, Seq<u8>),
                _,
            >(e@),
        },
{
    let stage = Stage::IntArray;
    let mut items: Vec<ArrayPropertyValue> = Vec::new();
    let mut rest = input;
    let mut i: u32 = 0;
    assert(array_model(items@) =~= Seq::<ArrayValueModel>::empty());
    while i < count
        invariant
            i <= count,
            int_items_grammar(input@, count as nat, Seq::empty()) == int_items_grammar(
                rest@,
                (count - i) as nat,
                array_model(items@),
            ),
        decreases count - i,
    {
        let (after, value) = in_stage(read_i32(rest), stage)?;
        let item = ArrayPropertyValue::Int(value);
        proof {
            lemma_array_model_push(items@, item);
        }
        items.push(item);
        rest = after;
        i += 1;
    }
    Ok((rest, items))
}

#[verifier::loop_isolation(false)]
fn parse_object_array<'a>(input: &'a [u8], count: u32) -> (r: ParseResult<
    'a,
    Vec<ArrayPropertyValue>,
>)
    ensures
        match r {
            Ok((rest, items)) => object_array_grammar(input@, count as nat) == Ok::<
                _,
                crate::error::ParseFailure,
            >((array_model(items@), rest@)),
            Err(e) => object_array_grammar(input@, count as nat) == Err::<
                (Seq<ArrayValueModel>, Seq<u8>),
                _,
            >(e@),
        },
{
    let stage = Stage::ObjectArray;
    let mut items: Vec<ArrayPropertyValue> = Vec::new();
    let mut rest = input;
    let mut i: u32 = 0;
    assert(array_model(items@) =~= Seq::<ArrayValueModel>::empty());
    while i < count
        invariant
            i <= count,
            object_items_grammar(input@, count as nat, Seq::empty()) == object_items_grammar(
                rest@,
                (count - i) as nat,
                array_model(items@),
            ),
        decreases count - i,
    {
        let (after, path) = in_stage(parse_string(rest), stage)?;
        let item = ArrayPropertyValue::Object(path);
        proof {
            lemma_array_model_push(items@, item);
        }
        items.push(item);
        rest = after;
        i += 1;
    }
    Ok((rest, items))
}

} // verus!
