//! The grammar of properties: what each sequence of bytes decodes to.
//!
//! Bags nest: a struct of a foreign type and a struct-valued map entry each
//! hold a bag of their own. `depth` is the number of further levels of
//! nesting that are allowed below the bag that is being read.

use crate::error::{failure, within, FailureKind, Parsed, Stage};
use crate::primitives::{bool_grammar, guid_grammar, string_grammar};
use crate::properties::value::{
    ArrayValueModel, DelegateModel, MapKeyModel, MapValueModel, PropertyModel, SetValueModel,
    StructModel,
};
use crate::wire::{
    i32_grammar, i64_grammar, i8_grammar, reserved_grammar, u32_grammar, u64_grammar,
};
use vstd::prelude::*;

verus! {

/// `count` items in a row, each read by `item`, after the items in `done`.
pub open spec fn repeated<T>(
    item: spec_fn(Seq<u8>) -> Parsed<T>,
    s: Seq<u8>,
    count: nat,
    done: Seq<T>,
) -> Parsed<Seq<T>>
    decreases count,
{
    if count == 0 {
        Ok((done, s))
    } else {
        match item(s) {
            Err(f) => Err(f),
            Ok((value, s)) => repeated(item, s, (count - 1) as nat, done.push(value)),
        }
    }
}

/// A signed 32-bit property: one reserved byte, then the number.
pub open spec fn int_property_grammar(s: Seq<u8>) -> Parsed<PropertyModel> {
    within(
        match reserved_grammar(s, 1) {
            Err(f) => Err(f),
            Ok((_, s)) => match i32_grammar(s) {
                Err(f) => Err(f),
                Ok((value, s)) => Ok((PropertyModel::Int(value), s)),
            },
        },
        Stage::IntProperty,
    )
}

/// An unsigned 32-bit property: one reserved byte, then the number.
pub open spec fn uint32_property_grammar(s: Seq<u8>) -> Parsed<PropertyModel> {
    within(
        match reserved_grammar(s, 1) {
            Err(f) => Err(f),
            Ok((_, s)) => match u32_grammar(s) {
                Err(f) => Err(f),
                Ok((value, s)) => Ok((PropertyModel::UInt32(value), s)),
            },
        },
        Stage::UInt32Property,
    )
}

/// A boolean property: one reserved byte, then a strict boolean.
pub open spec fn bool_property_grammar(s: Seq<u8>) -> Parsed<PropertyModel> {
    within(
        match reserved_grammar(s, 1) {
            Err(f) => Err(f),
            Ok((_, s)) => match bool_grammar(s) {
                Err(f) => Err(f),
                Ok((value, s)) => Ok((PropertyModel::Bool(value), s)),
            },
        },
        Stage::BoolProperty,
    )
}

/// A float property: one reserved byte, then the four bytes of the float.
pub open spec fn float_property_grammar(s: Seq<u8>) -> Parsed<PropertyModel> {
    within(
        match reserved_grammar(s, 1) {
            Err(f) => Err(f),
            Ok((_, s)) => match u32_grammar(s) {
                Err(f) => Err(f),
                Ok((bits, s)) => Ok((PropertyModel::Float(bits), s)),
            },
        },
        Stage::FloatProperty,
    )
}

/// One reserved byte, then a string.
pub open spec fn reserved_then_string_grammar(s: Seq<u8>) -> Parsed<Seq<char>> {
    match reserved_grammar(s, 1) {
        Err(f) => Err(f),
        Ok((_, s)) => string_grammar(s),
    }
}

/// A string property: one reserved byte, then the string.
pub open spec fn str_property_grammar(s: Seq<u8>) -> Parsed<PropertyModel> {
    within(
        match reserved_then_string_grammar(s) {
            Err(f) => Err(f),
            Ok((text, s)) => Ok((PropertyModel::Str(text), s)),
        },
        Stage::StrProperty,
    )
}

/// A name property: one reserved byte, then the name.
pub open spec fn name_property_grammar(s: Seq<u8>) -> Parsed<PropertyModel> {
    within(
        match reserved_then_string_grammar(s) {
            Err(f) => Err(f),
            Ok((text, s)) => Ok((PropertyModel::Name(text), s)),
        },
        Stage::NameProperty,
    )
}

/// An object property: one reserved byte, then the object's path.
pub open spec fn object_property_grammar(s: Seq<u8>) -> Parsed<PropertyModel> {
    within(
        match reserved_then_string_grammar(s) {
            Err(f) => Err(f),
            Ok((path, s)) => Ok((PropertyModel::Object(path), s)),
        },
        Stage::ObjectProperty,
    )
}

/// An enum property: the enum's name, one reserved byte, the value.
pub open spec fn enum_property_grammar(s: Seq<u8>) -> Parsed<PropertyModel> {
    within(
        match string_grammar(s) {
            Err(f) => Err(f),
            Ok((name, s)) => match reserved_then_string_grammar(s) {
                Err(f) => Err(f),
                Ok((value, s)) => Ok((PropertyModel::Enum { name, value }, s)),
            },
        },
        Stage::EnumProperty,
    )
}

/// A delegate: an object's path, then a function's name.
pub open spec fn delegate_grammar(s: Seq<u8>) -> Parsed<DelegateModel> {
    match string_grammar(s) {
        Err(f) => Err(f),
        Ok((object_path, s)) => match string_grammar(s) {
            Err(f) => Err(f),
            Ok((function_name, s)) => Ok((DelegateModel { object_path, function_name }, s)),
        },
    }
}

/// `count` delegates, after those in `done`.
pub open spec fn delegates_grammar(s: Seq<u8>, count: nat, done: Seq<DelegateModel>) -> Parsed<
    Seq<DelegateModel>,
> {
    repeated(|s: Seq<u8>| delegate_grammar(s), s, count, done)
}

/// A multicast delegate property: one reserved byte, a 32-bit count, that
/// many delegates.
pub open spec fn multicast_inline_delegate_property_grammar(s: Seq<u8>) -> Parsed<PropertyModel> {
    within(
        match reserved_grammar(s, 1) {
            Err(f) => Err(f),
            Ok((_, s)) => match u32_grammar(s) {
                Err(f) => Err(f),
                Ok((count, s)) => match delegates_grammar(s, count as nat, Seq::empty()) {
                    Err(f) => Err(f),
                    Ok((delegates, s)) => Ok(
                        (PropertyModel::MulticastInlineDelegate(delegates), s),
                    ),
                },
            },
        },
        Stage::MulticastInlineDelegateProperty,
    )
}

/// An element of a set whose element type tag is `element_type`: a GUID
/// under the tag `StructProperty`, and nothing under any other.
pub open spec fn set_item_grammar(element_type: Seq<char>, s: Seq<u8>) -> Parsed<SetValueModel> {
    if element_type == "StructProperty"@ {
        match guid_grammar(s) {
            Err(f) => Err(f),
            Ok((guid, s)) => Ok((SetValueModel::Struct(guid), s)),
        }
    } else {
        Err(failure(s, FailureKind::UnknownSetType(element_type)))
    }
}

/// `count` elements of a set, put into `done` one after the other.
pub open spec fn set_items_grammar(
    element_type: Seq<char>,
    s: Seq<u8>,
    count: nat,
    done: Set<SetValueModel>,
) -> Parsed<Set<SetValueModel>>
    decreases count,
{
    if count == 0 {
        Ok((done, s))
    } else {
        match set_item_grammar(element_type, s) {
            Err(f) => Err(f),
            Ok((item, s)) => set_items_grammar(
                element_type,
                s,
                (count - 1) as nat,
                done.insert(item),
            ),
        }
    }
}

/// A set property: the element type tag, five reserved bytes, a 32-bit
/// count, that many elements.
pub open spec fn set_property_grammar(s: Seq<u8>) -> Parsed<PropertyModel> {
    within(
        match string_grammar(s) {
            Err(f) => Err(f),
            Ok((element_type, s)) => match reserved_grammar(s, 5) {
                Err(f) => Err(f),
                Ok((_, s)) => match u32_grammar(s) {
                    Err(f) => Err(f),
                    Ok((count, s)) => match set_items_grammar(
                        element_type,
                        s,
                        count as nat,
                        Set::empty(),
                    ) {
                        Err(f) => Err(f),
                        Ok((items, s)) => Ok((PropertyModel::SetItems(items), s)),
                    },
                },
            },
        },
        Stage::SetProperty,
    )
}

/// An element of an array of integers.
pub open spec fn int_item_grammar(s: Seq<u8>) -> Parsed<ArrayValueModel> {
    match i32_grammar(s) {
        Err(f) => Err(f),
        Ok((value, s)) => Ok((ArrayValueModel::Int(value), s)),
    }
}

/// An element of an array of objects.
pub open spec fn object_item_grammar(s: Seq<u8>) -> Parsed<ArrayValueModel> {
    match string_grammar(s) {
        Err(f) => Err(f),
        Ok((path, s)) => Ok((ArrayValueModel::Object(path), s)),
    }
}

/// `count` integers, after the elements in `done`.
pub open spec fn int_items_grammar(s: Seq<u8>, count: nat, done: Seq<ArrayValueModel>) -> Parsed<
    Seq<ArrayValueModel>,
> {
    repeated(|s: Seq<u8>| int_item_grammar(s), s, count, done)
}

/// `count` object paths, after the elements in `done`.
pub open spec fn object_items_grammar(
    s: Seq<u8>,
    count: nat,
    done: Seq<ArrayValueModel>,
) -> Parsed<Seq<ArrayValueModel>> {
    repeated(|s: Seq<u8>| object_item_grammar(s), s, count, done)
}

/// The elements of an array of `count` integers.
pub open spec fn int_array_grammar(s: Seq<u8>, count: nat) -> Parsed<Seq<ArrayValueModel>> {
    within(int_items_grammar(s, count, Seq::empty()), Stage::IntArray)
}

/// The elements of an array of `count` objects.
pub open spec fn object_array_grammar(s: Seq<u8>, count: nat) -> Parsed<Seq<ArrayValueModel>> {
    within(object_items_grammar(s, count, Seq::empty()), Stage::ObjectArray)
}

/// A key of a map whose key type tag is `key_type`: a GUID under the tag
/// `StructProperty`, a signed 32-bit number under `IntProperty`, and nothing
/// under any other.
pub open spec fn map_key_grammar(key_type: Seq<char>, s: Seq<u8>) -> Parsed<MapKeyModel> {
    within(
        if key_type == "StructProperty"@ {
            match guid_grammar(s) {
                Err(f) => Err(f),
                Ok((guid, s)) => Ok((MapKeyModel::Struct(guid), s)),
            }
        } else if key_type == "IntProperty"@ {
            match i32_grammar(s) {
                Err(f) => Err(f),
                Ok((value, s)) => Ok((MapKeyModel::Int(value), s)),
            }
        } else {
            Err(failure(s, FailureKind::UnknownMapKeyType(key_type)))
        },
        Stage::MapPropertyKey,
    )
}

/// A loose boolean: one signed byte, false if and only if it is zero.
pub open spec fn loose_bool_grammar(s: Seq<u8>) -> Parsed<bool> {
    within(
        match i8_grammar(s) {
            Err(f) => Err(f),
            Ok((byte, s)) => Ok((byte != 0, s)),
        },
        Stage::MapBoolProperty,
    )
}

/// The body of a struct of type `struct_type`: a GUID, a timestamp, or, for
/// any other type, a property bag one level further down.
pub open spec fn struct_value_grammar(struct_type: Seq<char>, s: Seq<u8>, depth: nat) -> Parsed<
    StructModel,
>
    decreases depth, 0nat, 0nat,
{
    if struct_type == "Guid"@ {
        match guid_grammar(s) {
            Err(f) => Err(f),
            Ok((guid, s)) => Ok((StructModel::Guid(guid), s)),
        }
    } else if struct_type == "DateTime"@ {
        match i64_grammar(s) {
            Err(f) => Err(f),
            Ok((ticks, s)) => Ok((StructModel::DateTime(ticks), s)),
        }
    } else if depth == 0 {
        Err(failure(s, FailureKind::NestingTooDeep))
    } else {
        match property_map_grammar(s, (depth - 1) as nat) {
            Err(f) => Err(f),
            Ok((value, s)) => Ok((StructModel::Foreign { name: struct_type, value }, s)),
        }
    }
}

/// A value of a map whose value type tag is `value_type`: a property bag one
/// level further down under the tag `StructProperty`, a signed 32-bit number
/// under `IntProperty`, the four bytes of a float under `FloatProperty`, a
/// loose boolean under `BoolProperty`, and nothing under any other.
pub open spec fn map_value_grammar(value_type: Seq<char>, s: Seq<u8>, depth: nat) -> Parsed<
    MapValueModel,
>
    decreases depth, 0nat, 0nat,
{
    within(
        if value_type == "StructProperty"@ {
            if depth == 0 {
                Err(failure(s, FailureKind::NestingTooDeep))
            } else {
                match property_map_grammar(s, (depth - 1) as nat) {
                    Err(f) => Err(f),
                    Ok((value, s)) => Ok((MapValueModel::Struct(value), s)),
                }
            }
        } else if value_type == "IntProperty"@ {
            match i32_grammar(s) {
                Err(f) => Err(f),
                Ok((value, s)) => Ok((MapValueModel::Int(value), s)),
            }
        } else if value_type == "FloatProperty"@ {
            match u32_grammar(s) {
                Err(f) => Err(f),
                Ok((bits, s)) => Ok((MapValueModel::Float(bits), s)),
            }
        } else if value_type == "BoolProperty"@ {
            match loose_bool_grammar(s) {
                Err(f) => Err(f),
                Ok((value, s)) => Ok((MapValueModel::Bool(value), s)),
            }
        } else {
            Err(failure(s, FailureKind::UnknownMapValueType(value_type)))
        },
        Stage::MapPropertyValue,
    )
}

/// `count` struct bodies of type `struct_type`, after the elements in `done`.
pub open spec fn struct_items_grammar(
    struct_type: Seq<char>,
    s: Seq<u8>,
    count: nat,
    depth: nat,
    done: Seq<ArrayValueModel>,
) -> Parsed<Seq<ArrayValueModel>>
    decreases depth, 1nat, count,
{
    if count == 0 {
        Ok((done, s))
    } else {
        match struct_value_grammar(struct_type, s, depth) {
            Err(f) => Err(f),
            Ok((value, s)) => struct_items_grammar(
                struct_type,
                s,
                (count - 1) as nat,
                depth,
                done.push(ArrayValueModel::Struct(value)),
            ),
        }
    }
}

/// `count` entries of a map, bound in `done` one after the other: a key
/// that comes again takes the later value.
pub open spec fn map_entries_grammar(
    key_type: Seq<char>,
    value_type: Seq<char>,
    s: Seq<u8>,
    count: nat,
    depth: nat,
    done: Map<MapKeyModel, MapValueModel>,
) -> Parsed<Map<MapKeyModel, MapValueModel>>
    decreases depth, 1nat, count,
{
    if count == 0 {
        Ok((done, s))
    } else {
        match map_key_grammar(key_type, s) {
            Err(f) => Err(f),
            Ok((key, s)) => match map_value_grammar(value_type, s, depth) {
                Err(f) => Err(f),
                Ok((value, s)) => map_entries_grammar(
                    key_type,
                    value_type,
                    s,
                    (count - 1) as nat,
                    depth,
                    done.insert(key, value),
                ),
            },
        }
    }
}

/// The elements of an array of `count` structs: the header that they share
/// (a field name, the tag `StructProperty` once more, an eight-byte length,
/// the struct type, 17 reserved bytes), then the bodies.
pub open spec fn struct_array_grammar(s: Seq<u8>, count: nat, depth: nat) -> Parsed<
    Seq<ArrayValueModel>,
>
    decreases depth, 2nat, 0nat,
{
    within(
        match string_grammar(s) {
            Err(f) => Err(f),
            Ok((_, at_tag)) => match string_grammar(at_tag) {
                Err(f) => Err(f),
                Ok((tag, s)) => if tag != "StructProperty"@ {
                    Err(failure(at_tag, FailureKind::UnknownStructArrayType(tag)))
                } else {
                    match u64_grammar(s) {
                        Err(f) => Err(f),
                        Ok((_, s)) => match string_grammar(s) {
                            Err(f) => Err(f),
                            Ok((struct_type, s)) => match reserved_grammar(s, 17) {
                                Err(f) => Err(f),
                                Ok((_, s)) => struct_items_grammar(
                                    struct_type,
                                    s,
                                    count,
                                    depth,
                                    Seq::empty(),
                                ),
                            },
                        },
                    }
                },
            },
        },
        Stage::StructArray,
    )
}

/// A struct property: the struct type, 17 reserved bytes, the body.
pub open spec fn struct_property_grammar(s: Seq<u8>, depth: nat) -> Parsed<PropertyModel>
    decreases depth, 3nat, 0nat,
{
    within(
        match string_grammar(s) {
            Err(f) => Err(f),
            Ok((struct_type, s)) => match reserved_grammar(s, 17) {
                Err(f) => Err(f),
                Ok((_, s)) => match struct_value_grammar(struct_type, s, depth) {
                    Err(f) => Err(f),
                    Ok((value, s)) => Ok((PropertyModel::Struct(value), s)),
                },
            },
        },
        Stage::StructProperty,
    )
}

/// The elements of an array of `count` elements whose element type tag is
/// `element_type`.
pub open spec fn array_items_grammar(
    element_type: Seq<char>,
    s: Seq<u8>,
    count: nat,
    depth: nat,
) -> Parsed<Seq<ArrayValueModel>>
    decreases depth, 3nat, 0nat,
{
    if element_type == "StructProperty"@ {
        struct_array_grammar(s, count, depth)
    } else if element_type == "IntProperty"@ {
        int_array_grammar(s, count)
    } else if element_type == "ObjectProperty"@ {
        object_array_grammar(s, count)
    } else {
        Err(failure(s, FailureKind::UnknownArrayType(element_type)))
    }
}

/// An array property: the element type tag, one reserved byte, a 32-bit
/// count, the elements.
pub open spec fn array_property_grammar(s: Seq<u8>, depth: nat) -> Parsed<PropertyModel>
    decreases depth, 4nat, 0nat,
{
    within(
        match string_grammar(s) {
            Err(f) => Err(f),
            Ok((element_type, s)) => match reserved_grammar(s, 1) {
                Err(f) => Err(f),
                Ok((_, s)) => match u32_grammar(s) {
                    Err(f) => Err(f),
                    Ok((count, s)) => match array_items_grammar(
                        element_type,
                        s,
                        count as nat,
                        depth,
                    ) {
                        Err(f) => Err(f),
                        Ok((items, s)) => Ok((PropertyModel::Array(items), s)),
                    },
                },
            },
        },
        Stage::ArrayProperty,
    )
}

/// A map property: the key type tag, the value type tag, five reserved
/// bytes, a 32-bit count, that many entries.
pub open spec fn map_property_grammar(s: Seq<u8>, depth: nat) -> Parsed<PropertyModel>
    decreases depth, 4nat, 0nat,
{
    within(
        match string_grammar(s) {
            Err(f) => Err(f),
            Ok((key_type, s)) => match string_grammar(s) {
                Err(f) => Err(f),
                Ok((value_type, s)) => match reserved_grammar(s, 5) {
                    Err(f) => Err(f),
                    Ok((_, s)) => match u32_grammar(s) {
                        Err(f) => Err(f),
                        Ok((count, s)) => match map_entries_grammar(
                            key_type,
                            value_type,
                            s,
                            count as nat,
                            depth,
                            Map::empty(),
                        ) {
                            Err(f) => Err(f),
                            Ok((entries, s)) => Ok((PropertyModel::MapEntries(entries), s)),
                        },
                    },
                },
            },
        },
        Stage::MapProperty,
    )
}

/// Whether `tag` is one of the thirteen property type tags.
pub open spec fn known_property_type(tag: Seq<char>) -> bool {
    ||| tag == "IntProperty"@
    ||| tag == "UInt32Property"@
    ||| tag == "BoolProperty"@
    ||| tag == "StructProperty"@
    ||| tag == "ArrayProperty"@
    ||| tag == "FloatProperty"@
    ||| tag == "StrProperty"@
    ||| tag == "MulticastInlineDelegateProperty"@
    ||| tag == "MapProperty"@
    ||| tag == "SetProperty"@
    ||| tag == "ObjectProperty"@
    ||| tag == "EnumProperty"@
    ||| tag == "NameProperty"@
}

/// The value of a property whose type tag is `tag`. The tag alone selects
/// the decoder; a tag that names none is a failure that carries the tag.
pub open spec fn property_value_grammar(tag: Seq<char>, s: Seq<u8>, depth: nat) -> Parsed<
    PropertyModel,
>
    decreases depth, 5nat, 0nat,
{
    if tag == "IntProperty"@ {
        int_property_grammar(s)
    } else if tag == "UInt32Property"@ {
        uint32_property_grammar(s)
    } else if tag == "BoolProperty"@ {
        bool_property_grammar(s)
    } else if tag == "StructProperty"@ {
        struct_property_grammar(s, depth)
    } else if tag == "ArrayProperty"@ {
        array_property_grammar(s, depth)
    } else if tag == "FloatProperty"@ {
        float_property_grammar(s)
    } else if tag == "StrProperty"@ {
        str_property_grammar(s)
    } else if tag == "MulticastInlineDelegateProperty"@ {
        multicast_inline_delegate_property_grammar(s)
    } else if tag == "MapProperty"@ {
        map_property_grammar(s, depth)
    } else if tag == "SetProperty"@ {
        set_property_grammar(s)
    } else if tag == "ObjectProperty"@ {
        object_property_grammar(s)
    } else if tag == "EnumProperty"@ {
        enum_property_grammar(s)
    } else if tag == "NameProperty"@ {
        name_property_grammar(s)
    } else {
        Err(failure(s, FailureKind::UnknownPropertyType(tag)))
    }
}

/// What follows the name in a property record: the type tag, eight reserved
/// bytes, the value.
pub open spec fn record_grammar(s: Seq<u8>, depth: nat) -> Parsed<PropertyModel>
    decreases depth, 6nat, 0nat,
{
    within(
        match string_grammar(s) {
            Err(f) => Err(f),
            Ok((tag, s)) => match reserved_grammar(s, 8) {
                Err(f) => Err(f),
                Ok((_, s)) => property_value_grammar(tag, s, depth),
            },
        },
        Stage::Property,
    )
}

/// The records of a property bag up to its sentinel, bound in `done` one
/// after the other: a name that comes again takes the later value. The bag
/// ends at the name `None`, which is read and is no property. Input that ends
/// where a name has to stand has no sentinel.
///
/// A record is never empty, so what is left after one is shorter than what
/// was there before it (see `lemma_record_stays_within`); the comparison of the
/// two lengths is what shows that the bag comes to an end.
pub open spec fn records_grammar(
    s: Seq<u8>,
    depth: nat,
    done: Map<Seq<char>, PropertyModel>,
) -> Parsed<Map<Seq<char>, PropertyModel>>
    decreases depth, 7nat, s.len(),
{
    if s.len() == 0 {
        Err(failure(s, FailureKind::MissingSentinel))
    } else {
        match string_grammar(s) {
            Err(f) => Err(f),
            Ok((name, after_name)) => if name == "None"@ {
                Ok((done, after_name))
            } else {
                match record_grammar(after_name, depth) {
                    Err(f) => Err(f),
                    Ok((value, rest)) => if rest.len() < s.len() {
                        records_grammar(rest, depth, done.insert(name, value))
                    } else {
                        Err(failure(rest, FailureKind::MissingSentinel))
                    },
                }
            },
        }
    }
}

/// A property bag: records up to the sentinel `None`.
pub open spec fn property_map_grammar(s: Seq<u8>, depth: nat) -> Parsed<
    Map<Seq<char>, PropertyModel>,
>
    decreases depth, 8nat, 0nat,
{
    within(records_grammar(s, depth, Map::empty()), Stage::PropertyMap)
}

} // verus!
