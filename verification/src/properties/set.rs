//! Set properties.

use crate::collections::VecSet;
use crate::error::{agrees, in_stage, ParseErrorKind, ParseResult, SaveFileParseError, Stage};
use crate::primitives::{parse_guid, parse_string};
use crate::properties::grammar::{set_item_grammar, set_items_grammar, set_property_grammar};
use crate::properties::value::{Property, SetPropertyValue};
use crate::text::same_text;
use crate::wire::{read_u32, skip_reserved};
use vstd::prelude::*;
use vstd::string::*;

verus! {

fn parse_set_item<'a>(element_type: &str, input: &'a [u8]) -> (r: ParseResult<
    'a,
    SetPropertyValue,
>)
    ensures
        agrees(r, set_item_grammar(element_type@, input@)),
{
    if same_text(element_type, "StructProperty") {
        let (rest, guid) = parse_guid(input)?;
        Ok((rest, SetPropertyValue::Struct(guid)))
    } else {
        Err(
            SaveFileParseError::new(
                input,
                ParseErrorKind::UnknownSetType(String::from_str(element_type)),
            ),
        )
    }
}

/// Decodes a set property.
#[verifier::loop_isolation(false)]
pub fn parse_set_property<'a>(input: &'a [u8]) -> (r: ParseResult<'a, Property>)
    ensures
        agrees(r, set_property_grammar(input@)),
{
    let stage = Stage::SetProperty;
    let (rest, element_type) = in_stage(parse_string(input), stage)?;
    let (rest, _) = in_stage(skip_reserved(rest, 5), stage)?;
    let (first, count) = in_stage(read_u32(rest), stage)?;
    let mut items: VecSet<SetPropertyValue> = VecSet::new();
    let mut rest = first;
    let mut i: u32 = 0;
    while i < count
        invariant
            i <= count,
            set_items_grammar(element_type@, first@, count as nat, Set::empty())
                == set_items_grammar(element_type@, rest@, (count - i) as nat, items@),
        decreases count - i,
    {
        let (after, item) = in_stage(parse_set_item(element_type.as_str(), rest), stage)?;
        items.insert(item);
        rest = after;
        i += 1;
    }
    Ok((rest, Property::SetItems(items)))
}

} // verus!
