//! The header of a save file.

use crate::collections::VecMap;
use crate::error::{
    agrees, in_stage, lemma_follows_reflexive, lemma_stays_within_lift, stays_within, within,
    ParseResult, Parsed, Stage,
};
use crate::primitives::{
    guid_grammar, lemma_guid_stays_within, lemma_string_stays_within, parse_guid, parse_string,
    string_grammar, Guid,
};
use crate::wire::{
    lemma_numbers_stay_within, read_u16, read_u32, u16_grammar, u32_grammar,
};
use vstd::prelude::*;

verus! {

/// The custom format table: feature GUIDs, each bound to a version.
pub type CustomFormatData = VecMap<Guid, u32>;

/// The header of a save file.
#[derive(Debug)]
pub struct Metadata {
    pub save_version: u32,
    pub package_version: u32,
    pub engine_major: u16,
    pub engine_minor: u16,
    pub engine_patch: u16,
    pub engine_build: u32,
    pub engine_build_id: String,
    pub custom_format_version: u32,
    pub custom_format_data: CustomFormatData,
    pub save_game_type: String,
}

/// The header of a save file as a mathematical value.
pub struct MetadataModel {
    pub save_version: u32,
    pub package_version: u32,
    pub engine_major: u16,
    pub engine_minor: u16,
    pub engine_patch: u16,
    pub engine_build: u32,
    pub engine_build_id: Seq<char>,
    pub custom_format_version: u32,
    pub custom_format_data: Map<Option<Seq<char>>, u32>,
    pub save_game_type: Seq<char>,
}

impl View for Metadata {
    type V = MetadataModel;

    open spec fn view(&self) -> MetadataModel {
        MetadataModel {
            save_version: self.save_version,
            package_version: self.package_version,
            engine_major: self.engine_major,
            engine_minor: self.engine_minor,
            engine_patch: self.engine_patch,
            engine_build: self.engine_build,
            engine_build_id: self.engine_build_id@,
            custom_format_version: self.custom_format_version,
            custom_format_data: self.custom_format_data.map(),
            save_game_type: self.save_game_type@,
        }
    }
}

impl View for VecMap<Guid, u32> {
    type V = Map<Option<Seq<char>>, u32>;

    open spec fn view(&self) -> Map<Option<Seq<char>>, u32> {
        self.map()
    }
}

/// `count` entries of the custom format table, bound in `done` one after
/// the other: a GUID that comes again takes the later version.
pub open spec fn custom_format_entries_grammar(
    s: Seq<u8>,
    count: nat,
    done: Map<Option<Seq<char>>, u32>,
) -> Parsed<Map<Option<Seq<char>>, u32>>
    decreases count,
{
    if count == 0 {
        Ok((done, s))
    } else {
        match guid_grammar(s) {
            Err(f) => Err(f),
            Ok((guid, s)) => match u32_grammar(s) {
                Err(f) => Err(f),
                Ok((version, s)) => custom_format_entries_grammar(
                    s,
                    (count - 1) as nat,
                    done.insert(guid, version),
                ),
            },
        }
    }
}

/// The custom format table: a 32-bit count, then that many pairs of a GUID
/// and a 32-bit version.
pub open spec fn custom_format_data_grammar(s: Seq<u8>) -> Parsed<Map<Option<Seq<char>>, u32>> {
    within(
        match u32_grammar(s) {
            Err(f) => Err(f),
            Ok((count, s)) => custom_format_entries_grammar(s, count as nat, Map::empty()),
        },
        Stage::CustomFormatData,
    )
}

/// The engine's version: its major, minor and patch numbers and its build
/// number.
pub struct EngineVersion {
    pub major: u16,
    pub minor: u16,
    pub patch: u16,
    pub build: u32,
}

/// The engine's version: three 16-bit numbers and a 32-bit number.
pub open spec fn engine_version_grammar(s: Seq<u8>) -> Parsed<EngineVersion> {
    match u16_grammar(s) {
        Err(f) => Err(f),
        Ok((major, s)) => match u16_grammar(s) {
            Err(f) => Err(f),
            Ok((minor, s)) => match u16_grammar(s) {
                Err(f) => Err(f),
                Ok((patch, s)) => match u32_grammar(s) {
                    Err(f) => Err(f),
                    Ok((build, s)) => Ok((EngineVersion { major, minor, patch, build }, s)),
                },
            },
        },
    }
}

/// The header: save version, package version, the engine's version and its
/// build id, the custom format version, the custom format table, the save
/// game type.
pub open spec fn metadata_grammar(s: Seq<u8>) -> Parsed<MetadataModel> {
    within(
        match u32_grammar(s) {
            Err(f) => Err(f),
            Ok((save_version, s)) => match u32_grammar(s) {
                Err(f) => Err(f),
                Ok((package_version, s)) => match engine_version_grammar(s) {
                    Err(f) => Err(f),
                    Ok((engine, s)) => match string_grammar(s) {
                        Err(f) => Err(f),
                        Ok((engine_build_id, s)) => match u32_grammar(s) {
                            Err(f) => Err(f),
                            Ok((custom_format_version, s)) => match custom_format_data_grammar(
                                s,
                            ) {
                                Err(f) => Err(f),
                                Ok((custom_format_data, s)) => match string_grammar(s) {
                                    Err(f) => Err(f),
                                    Ok((save_game_type, s)) => Ok(
                                        (
                                            MetadataModel {
                                                save_version,
                                                package_version,
                                                engine_major: engine.major,
                                                engine_minor: engine.minor,
                                                engine_patch: engine.patch,
                                                engine_build: engine.build,
                                                engine_build_id,
                                                custom_format_version,
                                                custom_format_data,
                                                save_game_type,
                                            },
                                            s,
                                        ),
                                    ),
                                },
                            },
                        },
                    },
                },
            },
        },
        Stage::Metadata,
    )
}

proof fn lemma_custom_format_entries_stay_within(
    s: Seq<u8>,
    count: nat,
    done: Map<Option<Seq<char>>, u32>,
)
    ensures
        stays_within(custom_format_entries_grammar(s, count, done), s),
    decreases count,
{
    lemma_follows_reflexive(s);
    if count > 0 {
        lemma_guid_stays_within(s);
        if let Ok((guid, s1)) = guid_grammar(s) {
            lemma_numbers_stay_within(s1);
            lemma_stays_within_lift(u32_grammar(s1), s1, s);
            if let Ok((version, s2)) = u32_grammar(s1) {
                let next = done.insert(guid, version);
                lemma_custom_format_entries_stay_within(s2, (count - 1) as nat, next);
                lemma_stays_within_lift(
                    custom_format_entries_grammar(s2, (count - 1) as nat, next),
                    s2,
                    s,
                );
            }
        }
    }
}

/// The custom format table points into its input.
proof fn lemma_custom_format_data_stays_within(s: Seq<u8>)
    ensures
        stays_within(custom_format_data_grammar(s), s),
{
    lemma_numbers_stay_within(s);
    if let Ok((count, s1)) = u32_grammar(s) {
        lemma_custom_format_entries_stay_within(s1, count as nat, Map::empty());
        lemma_stays_within_lift(
            custom_format_entries_grammar(s1, count as nat, Map::empty()),
            s1,
            s,
        );
    }
}

/// The engine's version points into its input.
proof fn lemma_engine_version_stays_within(s: Seq<u8>)
    ensures
        stays_within(engine_version_grammar(s), s),
{
    lemma_numbers_stay_within(s);
    if let Ok((_, s1)) = u16_grammar(s) {
        lemma_numbers_stay_within(s1);
        lemma_stays_within_lift(u16_grammar(s1), s1, s);
        if let Ok((_, s2)) = u16_grammar(s1) {
            lemma_numbers_stay_within(s2);
            lemma_stays_within_lift(u16_grammar(s2), s2, s);
            if let Ok((_, s3)) = u16_grammar(s2) {
                lemma_numbers_stay_within(s3);
                lemma_stays_within_lift(u32_grammar(s3), s3, s);
            }
        }
    }
}

/// The header points into its input.
pub proof fn lemma_metadata_stays_within(s: Seq<u8>)
    ensures
        stays_within(metadata_grammar(s), s),
{
    lemma_numbers_stay_within(s);
    if let Ok((_, s1)) = u32_grammar(s) {
        lemma_numbers_stay_within(s1);
        lemma_stays_within_lift(u32_grammar(s1), s1, s);
        if let Ok((_, s2)) = u32_grammar(s1) {
            lemma_engine_version_stays_within(s2);
            lemma_stays_within_lift(engine_version_grammar(s2), s2, s);
            if let Ok((_, s3)) = engine_version_grammar(s2) {
                lemma_string_stays_within(s3);
                lemma_stays_within_lift(string_grammar(s3), s3, s);
                if let Ok((_, s4)) = string_grammar(s3) {
                    lemma_numbers_stay_within(s4);
                    lemma_stays_within_lift(u32_grammar(s4), s4, s);
                    if let Ok((_, s5)) = u32_grammar(s4) {
                        lemma_custom_format_data_stays_within(s5);
                        lemma_stays_within_lift(custom_format_data_grammar(s5), s5, s);
                        if let Ok((_, s6)) = custom_format_data_grammar(s5) {
                            lemma_string_stays_within(s6);
                            lemma_stays_within_lift(string_grammar(s6), s6, s);
                        }
                    }
                }
            }
        }
    }
}

/// Decodes the header of a save file.
pub fn parse_metadata<'a>(input: &'a [u8]) -> (r: ParseResult<'a, Metadata>)
    ensures
        agrees(r, metadata_grammar(input@)),
{
    let stage = Stage::Metadata;
    let (rest, save_version) = in_stage(read_u32(input), stage)?;
    let (rest, package_version) = in_stage(read_u32(rest), stage)?;
    let (rest, engine_major) = in_stage(read_u16(rest), stage)?;
    let (rest, engine_minor) = in_stage(read_u16(rest), stage)?;
    let (rest, engine_patch) = in_stage(read_u16(rest), stage)?;
    let (rest, engine_build) = in_stage(read_u32(rest), stage)?;
    let (rest, engine_build_id) = in_stage(parse_string(rest), stage)?;
    let (rest, custom_format_version) = in_stage(read_u32(rest), stage)?;
    let (rest, custom_format_data) = in_stage(parse_custom_format_data(rest), stage)?;
    let (rest, save_game_type) = in_stage(parse_string(rest), stage)?;
    Ok(
        (
            rest,
            Metadata {
                save_version,
                package_version,
                engine_major,
                engine_minor,
                engine_patch,
                engine_build,
                engine_build_id,
                custom_format_version,
                custom_format_data,
                save_game_type,
            },
        ),
    )
}

#[verifier::loop_isolation(false)]
fn parse_custom_format_data<'a>(input: &'a [u8]) -> (r: ParseResult<'a, CustomFormatData>)
    ensures
        agrees(r, custom_format_data_grammar(input@)),
{
    let stage = Stage::CustomFormatData;
    let (first, count) = in_stage(read_u32(input), stage)?;
    let mut entries: CustomFormatData = VecMap::new();
    let mut rest = first;
    let mut i: u32 = 0;
    while i < count
        invariant
            i <= count,
            custom_format_entries_grammar(first@, count as nat, Map::empty())
                == custom_format_entries_grammar(rest@, (count - i) as nat, entries@),
        decreases count - i,
    {
        let (at_version, guid) = in_stage(parse_guid(rest), stage)?;
        let (after, version) = in_stage(read_u32(at_version), stage)?;
        entries.insert(guid, version);
        rest = after;
        i += 1;
    }
    Ok((rest, entries))
}

} // verus!
