//! What holds of the decoder on every input.

use crate::error::{
    failure, follows, lemma_follows_reflexive, lemma_follows_transitive,
    lemma_stays_within_lift, ErrorCategory, FailureKind, ParseFailure, SaveFileParseError,
    Stage,
};
use crate::metadata::{lemma_metadata_stays_within, metadata_grammar};
use crate::primitives::{guid_of, lemma_string_stays_within, string_grammar};
use crate::properties::bounds::{lemma_property_map_stays_within, lemma_record_stays_within};
use crate::properties::grammar::{
    known_property_type, property_map_grammar, property_value_grammar, record_grammar,
    records_grammar,
};
use crate::properties::value::PropertyModel;
use crate::wire::{begins_with, magic, magic_grammar};
use crate::{decodes_to, save_file_grammar, SaveFile, SaveFileModel, MAX_DEPTH};
use vstd::prelude::*;
use vstd::utf8::*;

verus! {

/// Decoding is a function of the bytes: whatever two runs of the decoder on
/// the same bytes return, both succeed with the same file or both fail with
/// the same failure.
pub proof fn law_decoding_is_deterministic<'a>(
    input: Seq<u8>,
    first: Result<SaveFile, SaveFileParseError<'a>>,
    second: Result<SaveFile, SaveFileParseError<'a>>,
)
    requires
        decodes_to(input, first),
        decodes_to(input, second),
    ensures
        first is Ok <==> second is Ok,
        first matches Ok(a) ==> second matches Ok(b) && a@ == b@,
        first matches Err(a) ==> second matches Err(b) && a@ == b@,
{
}

/// Input that does not begin with `GVAS` fails at its front, before any
/// stage is entered, with a failure of the file's structure.
pub proof fn law_magic_is_checked_first(input: Seq<u8>)
    requires
        !begins_with(input, magic()),
    ensures
        save_file_grammar(input) == Err::<(SaveFileModel, Seq<u8>), ParseFailure>(
            failure(input, FailureKind::BadMagic),
        ),
        FailureKind::BadMagic.category() == ErrorCategory::Structure,
{
}

/// A string whose length field is zero is the empty text, and takes the four
/// bytes of that field and no more.
pub proof fn law_string_of_length_zero_is_empty(s: Seq<u8>)
    requires
        s.len() >= 4,
        s[0] == 0,
        s[1] == 0,
        s[2] == 0,
        s[3] == 0,
    ensures
        string_grammar(s) == Ok::<(Seq<char>, Seq<u8>), ParseFailure>((Seq::empty(), s.skip(4))),
{
    reveal(string_grammar);
    let body = s.skip(4);
    assert(body.take(0) =~= Seq::<u8>::empty());
    assert(body.skip(0) =~= body);
    assert(valid_utf8(Seq::<u8>::empty()));
    assert(decode_utf8(Seq::<u8>::empty()) =~= Seq::<char>::empty());
}

/// A GUID is null if and only if all four of its groups are zero; any other
/// GUID is a text of 35 characters.
pub proof fn law_guid_is_null_iff_groups_are_zero(a: u32, b: u32, c: u32, d: u32)
    ensures
        guid_of(a, b, c, d) is None <==> a == 0 && b == 0 && c == 0 && d == 0,
        guid_of(a, b, c, d) matches Some(text) ==> text.len() == 35 && text[8] == '-' && text[17]
            == '-' && text[26] == '-',
{
}

/// A bag of no properties: where the input begins with the name `None`, the
/// bag is empty and ends after that name.
pub proof fn law_sentinel_alone_is_the_empty_bag(s: Seq<u8>, depth: nat)
    requires
        string_grammar(s) matches Ok((name, _)) && name == "None"@,
    ensures
        property_map_grammar(s, depth) == Ok::<
            (Map<Seq<char>, PropertyModel>, Seq<u8>),
            ParseFailure,
        >((Map::empty(), string_grammar(s)->Ok_0.1)),
{
    lemma_string_stays_within(s);
}

/// The name `None` stands somewhere in `s`, and `rest` is what is left of
/// `s` after it.
pub open spec fn sentinel_stands_before(s: Seq<u8>, rest: Seq<u8>) -> bool {
    exists|at: int|
        0 <= at <= s.len() && #[trigger] string_grammar(s.skip(at)) == Ok::<
            (Seq<char>, Seq<u8>),
            ParseFailure,
        >(("None"@, rest))
}

proof fn lemma_sentinel_at_front(s: Seq<u8>, rest: Seq<u8>)
    requires
        string_grammar(s) == Ok::<(Seq<char>, Seq<u8>), ParseFailure>(("None"@, rest)),
    ensures
        sentinel_stands_before(s, rest),
{
    assert(s.skip(0) =~= s);
}

proof fn lemma_sentinel_further_on(s: Seq<u8>, tail: Seq<u8>, rest: Seq<u8>)
    requires
        follows(tail, s),
        sentinel_stands_before(tail, rest),
    ensures
        sentinel_stands_before(s, rest),
{
    reveal(follows);
    let inner = choose|at: int|
        0 <= at <= tail.len() && #[trigger] string_grammar(tail.skip(at)) == Ok::<
            (Seq<char>, Seq<u8>),
            ParseFailure,
        >(("None"@, rest));
    let at = s.len() - tail.len() + inner;
    assert(s.skip(at) =~= tail.skip(inner));
}

/// Records that decode end with the sentinel.
pub proof fn lemma_records_end_with_sentinel(
    s: Seq<u8>,
    depth: nat,
    done: Map<Seq<char>, PropertyModel>,
)
    requires
        records_grammar(s, depth, done) is Ok,
    ensures
        sentinel_stands_before(s, records_grammar(s, depth, done)->Ok_0.1),
    decreases s.len(),
{
    reveal(follows);
    let rest = records_grammar(s, depth, done)->Ok_0.1;
    let (name, after_name) = string_grammar(s)->Ok_0;
    if name == "None"@ {
        lemma_sentinel_at_front(s, rest);
    } else {
        let (value, after_record) = record_grammar(after_name, depth)->Ok_0;
        lemma_string_stays_within(s);
        lemma_record_stays_within(after_name, depth);
        lemma_follows_transitive(after_record, after_name, s);
        lemma_records_end_with_sentinel(after_record, depth, done.insert(name, value));
        lemma_sentinel_further_on(s, after_record, rest);
    }
}

/// A bag decodes only if it ends with the sentinel: what is left after the
/// bag is what is left after a name `None` that stands somewhere in the
/// input. A stream of records that ends in any other way fails.
pub proof fn law_bag_ends_with_sentinel(s: Seq<u8>, depth: nat)
    requires
        property_map_grammar(s, depth) is Ok,
    ensures
        sentinel_stands_before(s, property_map_grammar(s, depth)->Ok_0.1),
{
    lemma_records_end_with_sentinel(s, depth, Map::empty());
}

/// Input that ends where a name or the sentinel has to stand is a failure of
/// the file's structure.
pub proof fn law_bag_without_sentinel_fails(depth: nat)
    ensures
        property_map_grammar(Seq::empty(), depth) == Err::<
            (Map<Seq<char>, PropertyModel>, Seq<u8>),
            ParseFailure,
        >(failure(Seq::empty(), FailureKind::MissingSentinel).within(Stage::PropertyMap)),
        FailureKind::MissingSentinel.category() == ErrorCategory::Structure,
{
}

/// A record whose type tag is none of the known ones fails with that tag,
/// wherever it stands: where a tag that is not known and eight more bytes
/// follow a property's name, the record fails after those eight bytes with
/// an unknown-tag failure that carries the tag as it was read.
pub proof fn law_unknown_tag_fails_the_record(s: Seq<u8>, depth: nat)
    requires
        string_grammar(s) matches Ok((tag, after_tag)) && !known_property_type(tag)
            && after_tag.len() >= 8,
    ensures
        ({
            let (tag, after_tag) = string_grammar(s)->Ok_0;
            record_grammar(s, depth) == Err::<(PropertyModel, Seq<u8>), ParseFailure>(
                ParseFailure {
                    input: after_tag.skip(8),
                    context: seq![Stage::Property],
                    kind: FailureKind::UnknownPropertyType(tag),
                },
            )
        }),
        FailureKind::UnknownPropertyType(string_grammar(s)->Ok_0.0).category()
            == ErrorCategory::UnknownTag,
{
    let (tag, after_tag) = string_grammar(s)->Ok_0;
    let unstaged = failure(after_tag.skip(8), FailureKind::UnknownPropertyType(tag));
    assert(property_value_grammar(tag, after_tag.skip(8), depth) == Err::<
        (PropertyModel, Seq<u8>),
        ParseFailure,
    >(unstaged));
    assert(unstaged.within(Stage::Property).context =~= seq![Stage::Property]);
}

/// A bag whose first record has a type tag that is none of the known ones
/// fails with that tag: where a name other than `None`, a tag that is not
/// known and eight more bytes stand at the front of a bag, the bag fails
/// after those eight bytes with an unknown-tag failure that carries the tag
/// as it was read.
pub proof fn law_unknown_tag_is_named(s: Seq<u8>, depth: nat)
    requires
        string_grammar(s) matches Ok((name, after_name)) && name != "None"@ && (string_grammar(
            after_name,
        ) matches Ok((tag, after_tag)) && !known_property_type(tag) && after_tag.len() >= 8),
    ensures
        ({
            let after_name = string_grammar(s)->Ok_0.1;
            let (tag, after_tag) = string_grammar(after_name)->Ok_0;
            property_map_grammar(s, depth) == Err::<
                (Map<Seq<char>, PropertyModel>, Seq<u8>),
                ParseFailure,
            >(
                ParseFailure {
                    input: after_tag.skip(8),
                    context: seq![Stage::PropertyMap, Stage::Property],
                    kind: FailureKind::UnknownPropertyType(tag),
                },
            )
        }),
        FailureKind::UnknownPropertyType(
            string_grammar(string_grammar(s)->Ok_0.1)->Ok_0.0,
        ).category() == ErrorCategory::UnknownTag,
{
    lemma_string_stays_within(s);
    let after_name = string_grammar(s)->Ok_0.1;
    let (tag, after_tag) = string_grammar(after_name)->Ok_0;
    let expected = ParseFailure {
        input: after_tag.skip(8),
        context: seq![Stage::PropertyMap, Stage::Property],
        kind: FailureKind::UnknownPropertyType(tag),
    };
    let unstaged = failure(after_tag.skip(8), FailureKind::UnknownPropertyType(tag));
    assert(property_value_grammar(tag, after_tag.skip(8), depth) == Err::<
        (PropertyModel, Seq<u8>),
        ParseFailure,
    >(unstaged));
    assert(unstaged.within(Stage::Property).within(Stage::PropertyMap).context
        =~= expected.context);
}

/// A record is never empty: in a bag, what is left after a name and the
/// record under it is shorter than what was there before the name.
pub proof fn law_record_is_never_empty(s: Seq<u8>, depth: nat)
    requires
        string_grammar(s) is Ok,
        record_grammar(string_grammar(s)->Ok_0.1, depth) is Ok,
    ensures
        record_grammar(string_grammar(s)->Ok_0.1, depth)->Ok_0.1.len() < s.len(),
{
    reveal(follows);
    lemma_string_stays_within(s);
    lemma_record_stays_within(string_grammar(s)->Ok_0.1, depth);
}

/// Decoding points into the input: what is left after a bag, and where a
/// bag's failure lies, is the input without some bytes at its front.
pub proof fn law_bag_points_into_the_input(s: Seq<u8>, depth: nat)
    ensures
        property_map_grammar(s, depth) matches Ok((_, rest)) ==> follows(rest, s),
        property_map_grammar(s, depth) matches Err(f) ==> follows(f.input, s),
{
    lemma_property_map_stays_within(s, depth);
}

/// What is left after a save file, and where a save file's failure lies, is
/// the input without some bytes at its front.
pub proof fn law_file_points_into_the_input(s: Seq<u8>)
    ensures
        save_file_grammar(s) matches Ok((_, rest)) ==> follows(rest, s),
        save_file_grammar(s) matches Err(f) ==> follows(f.input, s),
{
    lemma_follows_reflexive(s);
    if let Ok((_, s1)) = magic_grammar(s) {
        assert(follows(s1, s)) by {
            reveal(follows);
        }
        lemma_metadata_stays_within(s1);
        lemma_stays_within_lift(metadata_grammar(s1), s1, s);
        if let Ok((_, s2)) = metadata_grammar(s1) {
            lemma_property_map_stays_within(s2, MAX_DEPTH as nat);
            lemma_stays_within_lift(property_map_grammar(s2, MAX_DEPTH as nat), s2, s);
        }
    }
}

} // verus!
