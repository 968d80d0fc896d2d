//! A decoder for Unreal Engine `GVAS` save files.
//!
//! A save file is the magic marker `GVAS`, a header, and a property bag: a
//! list of named, typed properties that ends at the name `None`. The value of
//! a property may hold further bags. [`parse_save_data`] decodes a whole
//! file; what it returns on which bytes is stated by [`save_file_grammar`].

pub mod collections;
pub mod error;
pub mod laws;
pub mod metadata;
pub mod primitives;
pub mod properties;
pub mod text;
pub mod wire;

pub use error::{ErrorCategory, ParseErrorKind, SaveFileParseError, Stage};
pub use metadata::{parse_metadata, Metadata};
pub use primitives::{parse_bool, parse_guid, parse_string, Guid};
pub use properties::{
    parse_array_property, parse_map_property, parse_property_map, parse_set_property,
    parse_struct_property, parse_struct_value, ArrayPropertyValue, Delegate, MapPropertyKey,
    MapPropertyValue, Property, PropertyMap, SetPropertyValue, StructPropertyValue,
};

use error::{agrees, ParseFailure, ParseResult, Parsed};
use metadata::{metadata_grammar, MetadataModel};
use properties::grammar::property_map_grammar;
use properties::value::PropertyModel;
use vstd::prelude::*;
use wire::{magic_grammar, read_magic};

verus! {

/// How many levels of property bags may lie inside the bag at the top of a
/// save file.
pub const MAX_DEPTH: usize = 64;

/// A decoded save file.
#[derive(Debug)]
pub struct SaveFile {
    pub metadata: Metadata,
    pub properties: PropertyMap,
}

/// A decoded save file as a mathematical value.
pub struct SaveFileModel {
    pub metadata: MetadataModel,
    pub properties: Map<Seq<char>, PropertyModel>,
}

impl View for SaveFile {
    type V = SaveFileModel;

    open spec fn view(&self) -> SaveFileModel {
        SaveFileModel { metadata: self.metadata@, properties: self.properties@ }
    }
}

/// A save file: the magic marker, the header, the property bag at the top.
pub open spec fn save_file_grammar(s: Seq<u8>) -> Parsed<SaveFileModel> {
    match magic_grammar(s) {
        Err(f) => Err(f),
        Ok((_, s)) => match metadata_grammar(s) {
            Err(f) => Err(f),
            Ok((metadata, s)) => match property_map_grammar(s, MAX_DEPTH as nat) {
                Err(f) => Err(f),
                Ok((properties, s)) => Ok((SaveFileModel { metadata, properties }, s)),
            },
        },
    }
}

/// `outcome` is what decoding `input` as a save file gives: the file that
/// the grammar yields, whatever is left after it, or the grammar's failure.
pub open spec fn decodes_to<'a>(
    input: Seq<u8>,
    outcome: Result<SaveFile, SaveFileParseError<'a>>,
) -> bool {
    match outcome {
        Ok(file) => save_file_grammar(input) matches Ok((model, _)) && model == file@,
        Err(e) => save_file_grammar(input) == Err::<(SaveFileModel, Seq<u8>), ParseFailure>(e@),
    }
}

/// Decodes a save file and hands out the input that is left after it.
pub fn root<'a>(input: &'a [u8]) -> (r: ParseResult<'a, SaveFile>)
    ensures
        agrees(r, save_file_grammar(input@)),
{
    let (rest, _) = read_magic(input)?;
    let (rest, metadata) = parse_metadata(rest)?;
    let (rest, properties) = parse_property_map(rest, MAX_DEPTH)?;
    Ok((rest, SaveFile { metadata, properties }))
}

/// Decodes a save file.
pub fn parse_save_data<'a>(input: &'a [u8]) -> (r: Result<SaveFile, SaveFileParseError<'a>>)
    ensures
        decodes_to(input@, r),
{
    let (_, file) = root(input)?;
    Ok(file)
}

} // verus!
