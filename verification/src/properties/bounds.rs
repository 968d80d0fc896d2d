//! Every grammar of a property points into its input: what a success
//! leaves, and where a failure lies, is what is left of the input after some
//! bytes at its front.

use crate::error::{lemma_follows_reflexive, lemma_stays_within_lift, stays_within, Parsed};
use crate::primitives::{
    bool_grammar, lemma_bool_stays_within, lemma_guid_stays_within, lemma_string_stays_within,
    string_grammar,
};
use crate::properties::grammar::{
    array_items_grammar, array_property_grammar, bool_property_grammar, delegate_grammar,
    delegates_grammar, enum_property_grammar, float_property_grammar, int_array_grammar,
    int_item_grammar, int_items_grammar, int_property_grammar, loose_bool_grammar,
    map_entries_grammar, map_key_grammar, map_property_grammar, map_value_grammar,
    multicast_inline_delegate_property_grammar, name_property_grammar, object_array_grammar,
    object_item_grammar, object_items_grammar, object_property_grammar, property_map_grammar,
    property_value_grammar, record_grammar, records_grammar, repeated,
    reserved_then_string_grammar, set_item_grammar, set_items_grammar, set_property_grammar,
    str_property_grammar, struct_array_grammar, struct_items_grammar, struct_property_grammar,
    struct_value_grammar, uint32_property_grammar,
};
use crate::properties::value::{
    ArrayValueModel, DelegateModel, MapKeyModel, MapValueModel, PropertyModel, SetValueModel,
};
use crate::wire::{
    i32_grammar, lemma_numbers_stay_within, lemma_reserved_stays_within, reserved_grammar,
    u32_grammar, u64_grammar,
};
use vstd::prelude::*;

verus! {

proof fn lemma_repeated_stays_within<T>(
    item: spec_fn(Seq<u8>) -> Parsed<T>,
    s: Seq<u8>,
    count: nat,
    done: Seq<T>,
)
    requires
        forall|t: Seq<u8>| stays_within(#[trigger] item(t), t),
    ensures
        stays_within(repeated(item, s, count, done), s),
    decreases count,
{
    lemma_follows_reflexive(s);
    if count > 0 {
        if let Ok((value, rest)) = item(s) {
            let next = done.push(value);
            lemma_repeated_stays_within(item, rest, (count - 1) as nat, next);
            lemma_stays_within_lift(repeated(item, rest, (count - 1) as nat, next), rest, s);
        }
    }
}

proof fn lemma_reserved_then_string_stays_within(s: Seq<u8>)
    ensures
        stays_within(reserved_then_string_grammar(s), s),
{
    lemma_reserved_stays_within(s, 1);
    if let Ok((_, s1)) = reserved_grammar(s, 1) {
        lemma_string_stays_within(s1);
        lemma_stays_within_lift(string_grammar(s1), s1, s);
    }
}

/// The properties that hold one number or one text.
proof fn lemma_scalar_properties_stay_within(s: Seq<u8>)
    ensures
        stays_within(int_property_grammar(s), s),
        stays_within(uint32_property_grammar(s), s),
        stays_within(bool_property_grammar(s), s),
        stays_within(float_property_grammar(s), s),
        stays_within(str_property_grammar(s), s),
        stays_within(name_property_grammar(s), s),
        stays_within(object_property_grammar(s), s),
        stays_within(enum_property_grammar(s), s),
{
    lemma_reserved_stays_within(s, 1);
    if let Ok((_, s1)) = reserved_grammar(s, 1) {
        lemma_numbers_stay_within(s1);
        lemma_stays_within_lift(i32_grammar(s1), s1, s);
        lemma_stays_within_lift(u32_grammar(s1), s1, s);
        lemma_bool_stays_within(s1);
        lemma_stays_within_lift(bool_grammar(s1), s1, s);
    }
    lemma_reserved_then_string_stays_within(s);
    lemma_string_stays_within(s);
    if let Ok((_, s1)) = string_grammar(s) {
        lemma_reserved_then_string_stays_within(s1);
        lemma_stays_within_lift(reserved_then_string_grammar(s1), s1, s);
    }
}

proof fn lemma_delegate_stays_within(s: Seq<u8>)
    ensures
        stays_within(delegate_grammar(s), s),
{
    lemma_string_stays_within(s);
    if let Ok((_, s1)) = string_grammar(s) {
        lemma_string_stays_within(s1);
        lemma_stays_within_lift(string_grammar(s1), s1, s);
    }
}

proof fn lemma_delegates_stay_within(s: Seq<u8>, count: nat, done: Seq<DelegateModel>)
    ensures
        stays_within(delegates_grammar(s, count, done), s),
{
    let item = |s: Seq<u8>| delegate_grammar(s);
    assert forall|t: Seq<u8>| stays_within(#[trigger] item(t), t) by {
        lemma_delegate_stays_within(t);
    }
    lemma_repeated_stays_within(item, s, count, done);
}

proof fn lemma_multicast_inline_delegate_property_stays_within(s: Seq<u8>)
    ensures
        stays_within(multicast_inline_delegate_property_grammar(s), s),
{
    lemma_reserved_stays_within(s, 1);
    if let Ok((_, s1)) = reserved_grammar(s, 1) {
        lemma_numbers_stay_within(s1);
        lemma_stays_within_lift(u32_grammar(s1), s1, s);
        if let Ok((count, s2)) = u32_grammar(s1) {
            lemma_delegates_stay_within(s2, count as nat, Seq::empty());
            lemma_stays_within_lift(delegates_grammar(s2, count as nat, Seq::empty()), s2, s);
        }
    }
}

proof fn lemma_set_item_stays_within(element_type: Seq<char>, s: Seq<u8>)
    ensures
        stays_within(set_item_grammar(element_type, s), s),
{
    lemma_guid_stays_within(s);
    lemma_follows_reflexive(s);
}

proof fn lemma_set_items_stay_within(
    element_type: Seq<char>,
    s: Seq<u8>,
    count: nat,
    done: Set<SetValueModel>,
)
    ensures
        stays_within(set_items_grammar(element_type, s, count, done), s),
    decreases count,
{
    lemma_follows_reflexive(s);
    if count > 0 {
        lemma_set_item_stays_within(element_type, s);
        if let Ok((item, s1)) = set_item_grammar(element_type, s) {
            let next = done.insert(item);
            lemma_set_items_stay_within(element_type, s1, (count - 1) as nat, next);
            lemma_stays_within_lift(
                set_items_grammar(element_type, s1, (count - 1) as nat, next),
                s1,
                s,
            );
        }
    }
}

proof fn lemma_set_property_stays_within(s: Seq<u8>)
    ensures
        stays_within(set_property_grammar(s), s),
{
    lemma_string_stays_within(s);
    if let Ok((element_type, s1)) = string_grammar(s) {
        lemma_reserved_stays_within(s1, 5);
        lemma_stays_within_lift(reserved_grammar(s1, 5), s1, s);
        if let Ok((_, s2)) = reserved_grammar(s1, 5) {
            lemma_numbers_stay_within(s2);
            lemma_stays_within_lift(u32_grammar(s2), s2, s);
            if let Ok((count, s3)) = u32_grammar(s2) {
                lemma_set_items_stay_within(element_type, s3, count as nat, Set::empty());
                lemma_stays_within_lift(
                    set_items_grammar(element_type, s3, count as nat, Set::empty()),
                    s3,
                    s,
                );
            }
        }
    }
}

proof fn lemma_plain_arrays_stay_within(s: Seq<u8>, count: nat)
    ensures
        stays_within(int_array_grammar(s, count), s),
        stays_within(object_array_grammar(s, count), s),
{
    let int_item = |s: Seq<u8>| int_item_grammar(s);
    assert forall|t: Seq<u8>| stays_within(#[trigger] int_item(t), t) by {
        lemma_numbers_stay_within(t);
    }
    lemma_repeated_stays_within(int_item, s, count, Seq::empty());
    assert(stays_within(int_items_grammar(s, count, Seq::empty()), s));
    let object_item = |s: Seq<u8>| object_item_grammar(s);
    assert forall|t: Seq<u8>| stays_within(#[trigger] object_item(t), t) by {
        lemma_string_stays_within(t);
    }
    lemma_repeated_stays_within(object_item, s, count, Seq::empty());
    assert(stays_within(object_items_grammar(s, count, Seq::empty()), s));
}

proof fn lemma_map_key_stays_within(key_type: Seq<char>, s: Seq<u8>)
    ensures
        stays_within(map_key_grammar(key_type, s), s),
{
    lemma_guid_stays_within(s);
    lemma_numbers_stay_within(s);
    lemma_follows_reflexive(s);
}

proof fn lemma_loose_bool_stays_within(s: Seq<u8>)
    ensures
        stays_within(loose_bool_grammar(s), s),
{
    lemma_numbers_stay_within(s);
}

proof fn lemma_struct_value_stays_within(struct_type: Seq<char>, s: Seq<u8>, depth: nat)
    ensures
        stays_within(struct_value_grammar(struct_type, s, depth), s),
    decreases depth, 0nat, 0nat,
{
    lemma_guid_stays_within(s);
    lemma_numbers_stay_within(s);
    lemma_follows_reflexive(s);
    if struct_type != "Guid"@ && struct_type != "DateTime"@ && depth > 0 {
        lemma_property_map_stays_within(s, (depth - 1) as nat);
    }
}

proof fn lemma_map_value_stays_within(value_type: Seq<char>, s: Seq<u8>, depth: nat)
    ensures
        stays_within(map_value_grammar(value_type, s, depth), s),
    decreases depth, 0nat, 0nat,
{
    lemma_numbers_stay_within(s);
    lemma_loose_bool_stays_within(s);
    lemma_follows_reflexive(s);
    if value_type == "StructProperty"@ && depth > 0 {
        lemma_property_map_stays_within(s, (depth - 1) as nat);
    }
}

proof fn lemma_struct_items_stay_within(
    struct_type: Seq<char>,
    s: Seq<u8>,
    count: nat,
    depth: nat,
    done: Seq<ArrayValueModel>,
)
    ensures
        stays_within(struct_items_grammar(struct_type, s, count, depth, done), s),
    decreases depth, 1nat, count,
{
    lemma_follows_reflexive(s);
    if count > 0 {
        lemma_struct_value_stays_within(struct_type, s, depth);
        if let Ok((value, s1)) = struct_value_grammar(struct_type, s, depth) {
            let next = done.push(ArrayValueModel::Struct(value));
            lemma_struct_items_stay_within(struct_type, s1, (count - 1) as nat, depth, next);
            lemma_stays_within_lift(
                struct_items_grammar(struct_type, s1, (count - 1) as nat, depth, next),
                s1,
                s,
            );
        }
    }
}

proof fn lemma_map_entries_stay_within(
    key_type: Seq<char>,
    value_type: Seq<char>,
    s: Seq<u8>,
    count: nat,
    depth: nat,
    done: Map<MapKeyModel, MapValueModel>,
)
    ensures
        stays_within(map_entries_grammar(key_type, value_type, s, count, depth, done), s),
    decreases depth, 1nat, count,
{
    lemma_follows_reflexive(s);
    if count > 0 {
        lemma_map_key_stays_within(key_type, s);
        if let Ok((key, s1)) = map_key_grammar(key_type, s) {
            lemma_map_value_stays_within(value_type, s1, depth);
            lemma_stays_within_lift(map_value_grammar(value_type, s1, depth), s1, s);
            if let Ok((value, s2)) = map_value_grammar(value_type, s1, depth) {
                let next = done.insert(key, value);
                lemma_map_entries_stay_within(
                    key_type,
                    value_type,
                    s2,
                    (count - 1) as nat,
                    depth,
                    next,
                );
                lemma_stays_within_lift(
                    map_entries_grammar(
                        key_type,
                        value_type,
                        s2,
                        (count - 1) as nat,
                        depth,
                        next,
                    ),
                    s2,
                    s,
                );
            }
        }
    }
}

proof fn lemma_struct_array_stays_within(s: Seq<u8>, count: nat, depth: nat)
    ensures
        stays_within(struct_array_grammar(s, count, depth), s),
    decreases depth, 2nat, 0nat,
{
    lemma_string_stays_within(s);
    if let Ok((_, s1)) = string_grammar(s) {
        lemma_string_stays_within(s1);
        lemma_stays_within_lift(string_grammar(s1), s1, s);
        if let Ok((tag, s2)) = string_grammar(s1) {
            if tag == "StructProperty"@ {
                lemma_numbers_stay_within(s2);
                lemma_stays_within_lift(u64_grammar(s2), s2, s);
                if let Ok((_, s3)) = u64_grammar(s2) {
                    lemma_string_stays_within(s3);
                    lemma_stays_within_lift(string_grammar(s3), s3, s);
                    if let Ok((struct_type, s4)) = string_grammar(s3) {
                        lemma_reserved_stays_within(s4, 17);
                        lemma_stays_within_lift(reserved_grammar(s4, 17), s4, s);
                        if let Ok((_, s5)) = reserved_grammar(s4, 17) {
                            lemma_struct_items_stay_within(
                                struct_type,
                                s5,
                                count,
                                depth,
                                Seq::empty(),
                            );
                            lemma_stays_within_lift(
                                struct_items_grammar(
                                    struct_type,
                                    s5,
                                    count,
                                    depth,
                                    Seq::empty(),
                                ),
                                s5,
                                s,
                            );
                        }
                    }
                }
            }
        }
    }
}

proof fn lemma_struct_property_stays_within(s: Seq<u8>, depth: nat)
    ensures
        stays_within(struct_property_grammar(s, depth), s),
    decreases depth, 3nat, 0nat,
{
    lemma_string_stays_within(s);
    if let Ok((struct_type, s1)) = string_grammar(s) {
        lemma_reserved_stays_within(s1, 17);
        lemma_stays_within_lift(reserved_grammar(s1, 17), s1, s);
        if let Ok((_, s2)) = reserved_grammar(s1, 17) {
            lemma_struct_value_stays_within(struct_type, s2, depth);
            lemma_stays_within_lift(struct_value_grammar(struct_type, s2, depth), s2, s);
        }
    }
}

proof fn lemma_array_items_stay_within(
    element_type: Seq<char>,
    s: Seq<u8>,
    count: nat,
    depth: nat,
)
    ensures
        stays_within(array_items_grammar(element_type, s, count, depth), s),
    decreases depth, 3nat, 0nat,
{
    lemma_struct_array_stays_within(s, count, depth);
    lemma_plain_arrays_stay_within(s, count);
    lemma_follows_reflexive(s);
}

proof fn lemma_array_property_stays_within(s: Seq<u8>, depth: nat)
    ensures
        stays_within(array_property_grammar(s, depth), s),
    decreases depth, 4nat, 0nat,
{
    lemma_string_stays_within(s);
    if let Ok((element_type, s1)) = string_grammar(s) {
        lemma_reserved_stays_within(s1, 1);
        lemma_stays_within_lift(reserved_grammar(s1, 1), s1, s);
        if let Ok((_, s2)) = reserved_grammar(s1, 1) {
            lemma_numbers_stay_within(s2);
            lemma_stays_within_lift(u32_grammar(s2), s2, s);
            if let Ok((count, s3)) = u32_grammar(s2) {
                lemma_array_items_stay_within(element_type, s3, count as nat, depth);
                lemma_stays_within_lift(
                    array_items_grammar(element_type, s3, count as nat, depth),
                    s3,
                    s,
                );
            }
        }
    }
}

proof fn lemma_map_property_stays_within(s: Seq<u8>, depth: nat)
    ensures
        stays_within(map_property_grammar(s, depth), s),
    decreases depth, 4nat, 0nat,
{
    lemma_string_stays_within(s);
    if let Ok((key_type, s1)) = string_grammar(s) {
        lemma_string_stays_within(s1);
        lemma_stays_within_lift(string_grammar(s1), s1, s);
        if let Ok((value_type, s2)) = string_grammar(s1) {
            lemma_reserved_stays_within(s2, 5);
            lemma_stays_within_lift(reserved_grammar(s2, 5), s2, s);
            if let Ok((_, s3)) = reserved_grammar(s2, 5) {
                lemma_numbers_stay_within(s3);
                lemma_stays_within_lift(u32_grammar(s3), s3, s);
                if let Ok((count, s4)) = u32_grammar(s3) {
                    lemma_map_entries_stay_within(
                        key_type,
                        value_type,
                        s4,
                        count as nat,
                        depth,
                        Map::empty(),
                    );
                    lemma_stays_within_lift(
                        map_entries_grammar(
                            key_type,
                            value_type,
                            s4,
                            count as nat,
                            depth,
                            Map::empty(),
                        ),
                        s4,
                        s,
                    );
                }
            }
        }
    }
}

/// The value of a property points into its input.
pub proof fn lemma_property_value_stays_within(tag: Seq<char>, s: Seq<u8>, depth: nat)
    ensures
        stays_within(property_value_grammar(tag, s, depth), s),
    decreases depth, 5nat, 0nat,
{
    lemma_scalar_properties_stay_within(s);
    lemma_multicast_inline_delegate_property_stays_within(s);
    lemma_set_property_stays_within(s);
    lemma_struct_property_stays_within(s, depth);
    lemma_array_property_stays_within(s, depth);
    lemma_map_property_stays_within(s, depth);
    lemma_follows_reflexive(s);
}

/// A record points into its input.
pub proof fn lemma_record_stays_within(s: Seq<u8>, depth: nat)
    ensures
        stays_within(record_grammar(s, depth), s),
    decreases depth, 6nat, 0nat,
{
    lemma_string_stays_within(s);
    if let Ok((tag, s1)) = string_grammar(s) {
        lemma_reserved_stays_within(s1, 8);
        lemma_stays_within_lift(reserved_grammar(s1, 8), s1, s);
        if let Ok((_, s2)) = reserved_grammar(s1, 8) {
            lemma_property_value_stays_within(tag, s2, depth);
            lemma_stays_within_lift(property_value_grammar(tag, s2, depth), s2, s);
        }
    }
}

proof fn lemma_records_stay_within(
    s: Seq<u8>,
    depth: nat,
    done: Map<Seq<char>, PropertyModel>,
)
    ensures
        stays_within(records_grammar(s, depth, done), s),
    decreases depth, 7nat, s.len(),
{
    lemma_follows_reflexive(s);
    if s.len() > 0 {
        lemma_string_stays_within(s);
        if let Ok((name, s1)) = string_grammar(s) {
            if name != "None"@ {
                lemma_record_stays_within(s1, depth);
                lemma_stays_within_lift(record_grammar(s1, depth), s1, s);
                if let Ok((value, s2)) = record_grammar(s1, depth) {
                    if s2.len() < s.len() {
                        let next = done.insert(name, value);
                        lemma_records_stay_within(s2, depth, next);
                        lemma_stays_within_lift(records_grammar(s2, depth, next), s2, s);
                    }
                }
            }
        }
    }
}

/// A property bag points into its input.
pub proof fn lemma_property_map_stays_within(s: Seq<u8>, depth: nat)
    ensures
        stays_within(property_map_grammar(s, depth), s),
    decreases depth, 8nat, 0nat,
{
    lemma_records_stay_within(s, depth, Map::empty());
}

} // verus!
