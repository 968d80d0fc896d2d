use gvas_save_parser::properties::parse_property_value;
use gvas_save_parser::{
    parse_array_property, parse_map_property, parse_property_map, parse_set_property,
    parse_struct_property, parse_struct_value, ArrayPropertyValue, ErrorCategory, Guid,
    MapPropertyKey, MapPropertyValue, ParseErrorKind, Property, SetPropertyValue, Stage,
    StructPropertyValue,
};

fn string(text: &str) -> Vec<u8> {
    let mut bytes = Vec::new();
    if text.is_empty() {
        bytes.extend_from_slice(&0i32.to_le_bytes());
    } else {
        bytes.extend_from_slice(&((text.len() + 1) as i32).to_le_bytes());
        bytes.extend_from_slice(text.as_bytes());
        bytes.push(0);
    }
    bytes
}

fn record(name: &str, tag: &str, payload: &[u8]) -> Vec<u8> {
    let mut bytes = string(name);
    bytes.extend(string(tag));
    bytes.extend_from_slice(&[0xAA; 8]);
    bytes.extend_from_slice(payload);
    bytes
}

fn int_payload(value: i32) -> Vec<u8> {
    let mut bytes = vec![0xBB];
    bytes.extend_from_slice(&value.to_le_bytes());
    bytes
}

fn guid_bytes(a: u32, b: u32, c: u32, d: u32) -> Vec<u8> {
    let mut bytes = Vec::new();
    for group in [a, b, c, d] {
        bytes.extend_from_slice(&group.to_le_bytes());
    }
    bytes
}

fn struct_payload(struct_type: &str, body: &[u8]) -> Vec<u8> {
    let mut bytes = string(struct_type);
    bytes.extend_from_slice(&[0xCC; 17]);
    bytes.extend_from_slice(body);
    bytes
}

fn key(name: &str) -> String {
    String::from(name)
}

#[test]
fn bag_with_sentinel_alone_is_empty() {
    let mut bytes = string("None");
    bytes.push(7);
    let (rest, bag) = parse_property_map(&bytes, 0).unwrap();
    assert!(bag.is_empty());
    assert_eq!(bag.len(), 0);
    assert_eq!(rest, &[7u8][..]);
}

#[test]
fn bag_without_sentinel_fails() {
    let bytes = record("Level", "IntProperty", &int_payload(42));
    let e = parse_property_map(&bytes, 4).unwrap_err();
    assert!(matches!(e.kind, ParseErrorKind::MissingSentinel));
    assert_eq!(e.kind.category(), ErrorCategory::Structure);
    assert_eq!(e.context, vec![Stage::PropertyMap]);
    assert!(e.input.is_empty());
    let e = parse_property_map(&[], 4).unwrap_err();
    assert!(matches!(e.kind, ParseErrorKind::MissingSentinel));
}

#[test]
fn bag_that_ends_in_another_name_fails() {
    let mut bytes = record("Level", "IntProperty", &int_payload(42));
    bytes.extend(string("Done"));
    let e = parse_property_map(&bytes, 4).unwrap_err();
    assert!(matches!(e.kind, ParseErrorKind::UnexpectedEof));
    assert_eq!(e.context, vec![Stage::PropertyMap, Stage::Property, Stage::String]);
    let mut bytes = record("Level", "IntProperty", &int_payload(42));
    bytes.extend_from_slice(&[5, 0]);
    let e = parse_property_map(&bytes, 4).unwrap_err();
    assert!(matches!(e.kind, ParseErrorKind::UnexpectedEof));
    assert_eq!(e.context, vec![Stage::PropertyMap, Stage::String]);
    assert_eq!(e.input, &[5u8, 0][..]);
}

#[test]
fn sentinel_is_exact() {
    let mut bytes = string("none");
    bytes.extend(string("IntProperty"));
    bytes.extend_from_slice(&[0; 8]);
    bytes.extend(int_payload(1));
    bytes.extend(string("None"));
    let (rest, bag) = parse_property_map(&bytes, 0).unwrap();
    assert!(rest.is_empty());
    assert!(matches!(bag.get(&key("none")), Some(Property::Int(1))));
}

#[test]
fn bag_holds_each_name_once_and_the_later_value() {
    let mut bytes = record("A", "IntProperty", &int_payload(1));
    bytes.extend(record("B", "IntProperty", &int_payload(2)));
    bytes.extend(record("A", "IntProperty", &int_payload(3)));
    bytes.extend(string("None"));
    bytes.extend_from_slice(&[1, 2]);
    let (rest, bag) = parse_property_map(&bytes, 0).unwrap();
    assert_eq!(rest, &[1u8, 2][..]);
    assert_eq!(bag.len(), 2);
    assert!(matches!(bag.get(&key("A")), Some(Property::Int(3))));
    assert!(matches!(bag.get(&key("B")), Some(Property::Int(2))));
    assert!(bag.get(&key("C")).is_none());
    let names: Vec<&str> = bag.as_slice().iter().map(|entry| entry.0.as_str()).collect();
    assert_eq!(names, vec!["A", "B"]);
}

#[test]
fn bag_finds_a_property_by_its_name() {
    let mut bytes = record("A", "IntProperty", &int_payload(1));
    bytes.extend(record("B", "BoolProperty", &[0, 1]));
    bytes.extend(string("None"));
    let (_, bag) = parse_property_map(&bytes, 0).unwrap();
    assert!(matches!(bag.property("A"), Some(Property::Int(1))));
    assert!(matches!(bag.property("B"), Some(Property::Bool(true))));
    assert!(bag.property("a").is_none());
    assert!(bag.property("").is_none());
}

#[test]
fn unknown_tag_in_a_later_record_is_named() {
    let mut bytes = record("A", "IntProperty", &int_payload(1));
    bytes.extend(record("B", "TextProperty", &[]));
    let e = parse_property_map(&bytes, 4).unwrap_err();
    match &e.kind {
        ParseErrorKind::UnknownPropertyType(tag) => assert_eq!(tag, "TextProperty"),
        other => panic!("{:?}", other),
    }
    assert_eq!(e.context, vec![Stage::PropertyMap, Stage::Property]);
    assert!(e.input.is_empty());
}

#[test]
fn unknown_property_type_is_named() {
    let mut bytes = record("Level", "ByteProperty", &[1, 2, 3]);
    bytes.extend(string("None"));
    let e = parse_property_map(&bytes, 4).unwrap_err();
    match &e.kind {
        ParseErrorKind::UnknownPropertyType(tag) => assert_eq!(tag, "ByteProperty"),
        other => panic!("{:?}", other),
    }
    assert_eq!(e.kind.category(), ErrorCategory::UnknownTag);
    assert_eq!(e.context, vec![Stage::PropertyMap, Stage::Property]);
    assert_eq!(&e.input[..3], &[1u8, 2, 3][..]);
}

#[test]
fn record_needs_its_eight_reserved_bytes() {
    let mut bytes = string("Level");
    bytes.extend(string("IntProperty"));
    bytes.extend_from_slice(&[0; 7]);
    let e = parse_property_map(&bytes, 4).unwrap_err();
    assert!(matches!(e.kind, ParseErrorKind::UnexpectedEof));
    assert_eq!(e.context, vec![Stage::PropertyMap, Stage::Property]);
    assert_eq!(e.input.len(), 7);
}

#[test]
fn int_property_is_signed() {
    let bytes_1 = int_payload(-7);
    let (rest, value) = parse_property_value("IntProperty", &bytes_1, 0).unwrap();
    assert!(rest.is_empty());
    assert!(matches!(value, Property::Int(-7)));
    let e = parse_property_value("IntProperty", &[0, 1, 2], 0).unwrap_err();
    assert!(matches!(e.kind, ParseErrorKind::UnexpectedEof));
    assert_eq!(e.context, vec![Stage::IntProperty]);
    assert_eq!(e.input, &[1u8, 2][..]);
}

#[test]
fn uint32_property_is_unsigned() {
    let bytes_2 = int_payload(-7);
    let (_, value) = parse_property_value("UInt32Property", &bytes_2, 0).unwrap();
    assert!(matches!(value, Property::UInt32(0xFFFF_FFF9)));
    let e = parse_property_value("UInt32Property", &[], 0).unwrap_err();
    assert_eq!(e.context, vec![Stage::UInt32Property]);
}

#[test]
fn bool_property_is_strict() {
    let (_, value) = parse_property_value("BoolProperty", &[9, 1], 0).unwrap();
    assert!(matches!(value, Property::Bool(true)));
    let (_, value) = parse_property_value("BoolProperty", &[9, 0], 0).unwrap();
    assert!(matches!(value, Property::Bool(false)));
    let e = parse_property_value("BoolProperty", &[9, 2], 0).unwrap_err();
    assert!(matches!(e.kind, ParseErrorKind::InvalidBool(2)));
    assert_eq!(e.context, vec![Stage::BoolProperty, Stage::Bool]);
    assert_eq!(e.input, &[2u8][..]);
}

#[test]
fn float_property_keeps_the_bits() {
    let (rest, value) =
        parse_property_value("FloatProperty", &[0, 0x00, 0x00, 0x48, 0x41, 3], 0).unwrap();
    assert_eq!(rest, &[3u8][..]);
    match value {
        Property::Float(bits) => {
            assert_eq!(bits, 0x4148_0000);
            assert_eq!(f32::from_bits(bits), 12.5);
        }
        other => panic!("{:?}", other),
    }
    let e = parse_property_value("FloatProperty", &[0, 1], 0).unwrap_err();
    assert_eq!(e.context, vec![Stage::FloatProperty]);
}

#[test]
fn text_properties_hold_their_text() {
    let mut payload = vec![0];
    payload.extend(string("hello"));
    let (_, value) = parse_property_value("StrProperty", &payload, 0).unwrap();
    assert!(matches!(&value, Property::Str(text) if text == "hello"));
    let (_, value) = parse_property_value("NameProperty", &payload, 0).unwrap();
    assert!(matches!(&value, Property::Name(text) if text == "hello"));
    let (_, value) = parse_property_value("ObjectProperty", &payload, 0).unwrap();
    assert!(matches!(&value, Property::Object(text) if text == "hello"));
    let e = parse_property_value("StrProperty", &[0, 9], 0).unwrap_err();
    assert_eq!(e.context, vec![Stage::StrProperty, Stage::String]);
    let e = parse_property_value("NameProperty", &[], 0).unwrap_err();
    assert_eq!(e.context, vec![Stage::NameProperty]);
    let e = parse_property_value("ObjectProperty", &[0, 9], 0).unwrap_err();
    assert_eq!(e.context, vec![Stage::ObjectProperty, Stage::String]);
}

#[test]
fn enum_property_holds_name_and_value() {
    let mut payload = string("EColor");
    payload.push(0);
    payload.extend(string("EColor::Red"));
    payload.push(5);
    let (rest, value) = parse_property_value("EnumProperty", &payload, 0).unwrap();
    assert_eq!(rest, &[5u8][..]);
    match value {
        Property::Enum { name, value } => {
            assert_eq!(name, "EColor");
            assert_eq!(value, "EColor::Red");
        }
        other => panic!("{:?}", other),
    }
    let bytes_3 = string("EColor");
    let e = parse_property_value("EnumProperty", &bytes_3, 0).unwrap_err();
    assert_eq!(e.context, vec![Stage::EnumProperty]);
}

#[test]
fn delegate_property_holds_its_delegates_in_order() {
    let mut payload = vec![0];
    payload.extend_from_slice(&2u32.to_le_bytes());
    payload.extend(string("/Game/A"));
    payload.extend(string("OnHit"));
    payload.extend(string("/Game/B"));
    payload.extend(string("OnMiss"));
    let (rest, value) =
        parse_property_value("MulticastInlineDelegateProperty", &payload, 0).unwrap();
    assert!(rest.is_empty());
    match value {
        Property::MulticastInlineDelegate(delegates) => {
            assert_eq!(delegates.len(), 2);
            assert_eq!(delegates[0].object_path, "/Game/A");
            assert_eq!(delegates[0].function_name, "OnHit");
            assert_eq!(delegates[1].object_path, "/Game/B");
            assert_eq!(delegates[1].function_name, "OnMiss");
        }
        other => panic!("{:?}", other),
    }
    let mut short = vec![0];
    short.extend_from_slice(&2u32.to_le_bytes());
    short.extend(string("/Game/A"));
    short.extend(string("OnHit"));
    let e = parse_property_value("MulticastInlineDelegateProperty", &short, 0).unwrap_err();
    assert!(matches!(e.kind, ParseErrorKind::UnexpectedEof));
    assert_eq!(e.context, vec![Stage::MulticastInlineDelegateProperty, Stage::String]);
}

#[test]
fn struct_of_type_guid_is_a_guid() {
    let payload = struct_payload("Guid", &guid_bytes(1, 2, 3, 4));
    let (rest, value) = parse_struct_property(&payload, 0).unwrap();
    assert!(rest.is_empty());
    match value {
        Property::Struct(StructPropertyValue::Guid(guid)) => {
            assert_eq!(guid.text(), Some("00000001-00000002-00000003-00000004"));
        }
        other => panic!("{:?}", other),
    }
}

#[test]
fn struct_of_type_date_time_is_a_timestamp() {
    let payload = struct_payload("DateTime", &(-5i64).to_le_bytes());
    let (_, value) = parse_struct_property(&payload, 0).unwrap();
    assert!(matches!(value, Property::Struct(StructPropertyValue::DateTime(-5))));
    let ticks = 637_000_000_000_000_000i64.to_le_bytes();
    let (rest, value) = parse_struct_value("DateTime", &ticks, 0).unwrap();
    assert!(rest.is_empty());
    assert!(matches!(value, StructPropertyValue::DateTime(637_000_000_000_000_000)));
}

#[test]
fn struct_of_another_type_is_a_bag_under_its_name() {
    let mut body = record("X", "IntProperty", &int_payload(10));
    body.extend(string("None"));
    let payload = struct_payload("Vector", &body);
    let (rest, value) = parse_struct_property(&payload, 1).unwrap();
    assert!(rest.is_empty());
    match value {
        Property::Struct(StructPropertyValue::Foreign { name, value }) => {
            assert_eq!(name, "Vector");
            assert_eq!(value.len(), 1);
            assert!(matches!(value.get(&key("X")), Some(Property::Int(10))));
        }
        other => panic!("{:?}", other),
    }
}

#[test]
fn struct_property_needs_its_reserved_bytes() {
    let mut payload = string("Guid");
    payload.extend_from_slice(&[0; 16]);
    let e = parse_struct_property(&payload, 1).unwrap_err();
    assert!(matches!(e.kind, ParseErrorKind::UnexpectedEof));
    assert_eq!(e.context, vec![Stage::StructProperty]);
    let payload = struct_payload("Guid", &[0; 15]);
    let e = parse_struct_property(&payload, 1).unwrap_err();
    assert_eq!(e.context, vec![Stage::StructProperty, Stage::Guid]);
}

#[test]
fn nesting_is_capped() {
    let mut innermost = record("X", "IntProperty", &int_payload(10));
    innermost.extend(string("None"));
    let mut middle = record("Inner", "StructProperty", &struct_payload("Vector", &innermost));
    middle.extend(string("None"));
    let mut outer = record("Outer", "StructProperty", &struct_payload("Box", &middle));
    outer.extend(string("None"));
    assert!(parse_property_map(&outer, 2).is_ok());
    assert!(parse_property_map(&outer, 64).is_ok());
    let e = parse_property_map(&outer, 1).unwrap_err();
    assert!(matches!(e.kind, ParseErrorKind::NestingTooDeep));
    assert_eq!(e.kind.category(), ErrorCategory::Structure);
    assert_eq!(
        e.context,
        vec![
            Stage::PropertyMap,
            Stage::Property,
            Stage::StructProperty,
            Stage::PropertyMap,
            Stage::Property,
            Stage::StructProperty,
        ]
    );
    assert_eq!(&e.input[..innermost.len()], &innermost[..]);
    assert_eq!(e.input.len(), innermost.len() + 2 * string("None").len());
    let e = parse_property_map(&outer, 0).unwrap_err();
    assert!(matches!(e.kind, ParseErrorKind::NestingTooDeep));
    assert_eq!(&e.input[..middle.len()], &middle[..]);
    assert_eq!(e.input.len(), middle.len() + string("None").len());
}

#[test]
fn failure_inside_nested_bags_names_every_stage() {
    let mut innermost = record("X", "BoolProperty", &[0, 7]);
    innermost.extend(string("None"));
    let mut outer = record("Outer", "StructProperty", &struct_payload("Box", &innermost));
    outer.extend(string("None"));
    let e = parse_property_map(&outer, 8).unwrap_err();
    assert!(matches!(e.kind, ParseErrorKind::InvalidBool(7)));
    assert_eq!(
        e.context,
        vec![
            Stage::PropertyMap,
            Stage::Property,
            Stage::StructProperty,
            Stage::PropertyMap,
            Stage::Property,
            Stage::BoolProperty,
            Stage::Bool,
        ]
    );
}

fn array_payload(element_type: &str, count: u32, body: &[u8]) -> Vec<u8> {
    let mut bytes = string(element_type);
    bytes.push(0);
    bytes.extend_from_slice(&count.to_le_bytes());
    bytes.extend_from_slice(body);
    bytes
}

fn struct_array_body(tag: &str, struct_type: &str, bodies: &[u8]) -> Vec<u8> {
    let mut bytes = string("Items");
    bytes.extend(string(tag));
    bytes.extend_from_slice(&32u64.to_le_bytes());
    bytes.extend(string(struct_type));
    bytes.extend_from_slice(&[0xDD; 17]);
    bytes.extend_from_slice(bodies);
    bytes
}

#[test]
fn array_of_ints() {
    let mut body = Vec::new();
    for value in [3i32, -1, 0] {
        body.extend_from_slice(&value.to_le_bytes());
    }
    body.push(9);
    let bytes_4 = array_payload("IntProperty", 3, &body);
    let (rest, value) = parse_array_property(&bytes_4, 0).unwrap();
    assert_eq!(rest, &[9u8][..]);
    match value {
        Property::Array(items) => {
            assert_eq!(items.len(), 3);
            assert!(matches!(items[0], ArrayPropertyValue::Int(3)));
            assert!(matches!(items[1], ArrayPropertyValue::Int(-1)));
            assert!(matches!(items[2], ArrayPropertyValue::Int(0)));
        }
        other => panic!("{:?}", other),
    }
    let bytes_5 = array_payload("IntProperty", 4, &body);
    let e = parse_array_property(&bytes_5, 0).unwrap_err();
    assert!(matches!(e.kind, ParseErrorKind::UnexpectedEof));
    assert_eq!(e.context, vec![Stage::ArrayProperty, Stage::IntArray]);
    assert_eq!(e.input, &[9u8][..]);
}

#[test]
fn array_of_objects() {
    let mut body = string("/Game/A");
    body.extend(string(""));
    let bytes_6 = array_payload("ObjectProperty", 2, &body);
    let (rest, value) =
        parse_array_property(&bytes_6, 0).unwrap();
    assert!(rest.is_empty());
    match value {
        Property::Array(items) => {
            assert_eq!(items.len(), 2);
            assert!(matches!(&items[0], ArrayPropertyValue::Object(path) if path == "/Game/A"));
            assert!(matches!(&items[1], ArrayPropertyValue::Object(path) if path.is_empty()));
        }
        other => panic!("{:?}", other),
    }
    let bytes_7 = array_payload("ObjectProperty", 3, &body);
    let e = parse_array_property(&bytes_7, 0).unwrap_err();
    assert_eq!(e.context, vec![Stage::ArrayProperty, Stage::ObjectArray, Stage::String]);
}

#[test]
fn array_of_no_elements() {
    let bytes_8 = array_payload("IntProperty", 0, &[1]);
    let (rest, value) = parse_array_property(&bytes_8, 0).unwrap();
    assert_eq!(rest, &[1u8][..]);
    assert!(matches!(&value, Property::Array(items) if items.is_empty()));
}

#[test]
fn array_of_two_guid_structs_takes_two_bodies() {
    let mut bodies = guid_bytes(0x4C4F1A50, 0x42CB24CC, 0x2A7F28B0, 0x0D12AEF9);
    bodies.extend(guid_bytes(0, 0, 0, 0));
    bodies.extend_from_slice(&[0xEE; 16]);
    let payload =
        array_payload("StructProperty", 2, &struct_array_body("StructProperty", "Guid", &bodies));
    let (rest, value) = parse_array_property(&payload, 0).unwrap();
    assert_eq!(rest, &[0xEEu8; 16][..]);
    match value {
        Property::Array(items) => {
            assert_eq!(items.len(), 2);
            match &items[0] {
                ArrayPropertyValue::Struct(StructPropertyValue::Guid(guid)) => {
                    assert_eq!(guid.text(), Some("4C4F1A50-42CB24CC-2A7F28B0-0D12AEF9"));
                }
                other => panic!("{:?}", other),
            }
            match &items[1] {
                ArrayPropertyValue::Struct(StructPropertyValue::Guid(guid)) => {
                    assert!(guid.is_null());
                }
                other => panic!("{:?}", other),
            }
        }
        other => panic!("{:?}", other),
    }
}

#[test]
fn array_of_foreign_structs_shares_one_header() {
    let mut bodies = Vec::new();
    for value in [1, 2] {
        bodies.extend(record("X", "IntProperty", &int_payload(value)));
        bodies.extend(string("None"));
    }
    let payload =
        array_payload("StructProperty", 2, &struct_array_body("StructProperty", "Vec", &bodies));
    let (rest, value) = parse_array_property(&payload, 1).unwrap();
    assert!(rest.is_empty());
    match value {
        Property::Array(items) => {
            assert_eq!(items.len(), 2);
            for (item, expected) in items.iter().zip([1, 2]) {
                match item {
                    ArrayPropertyValue::Struct(StructPropertyValue::Foreign { name, value }) => {
                        assert_eq!(name, "Vec");
                        assert!(
                            matches!(value.get(&key("X")), Some(Property::Int(v)) if *v == expected)
                        );
                    }
                    other => panic!("{:?}", other),
                }
            }
        }
        other => panic!("{:?}", other),
    }
    let e = parse_array_property(&payload, 0).unwrap_err();
    assert!(matches!(e.kind, ParseErrorKind::NestingTooDeep));
    assert_eq!(e.context, vec![Stage::ArrayProperty, Stage::StructArray]);
}

#[test]
fn struct_array_header_repeats_the_tag() {
    let header = struct_array_body("IntProperty", "Guid", &[0; 32]);
    let payload = array_payload("StructProperty", 2, &header);
    let e = parse_array_property(&payload, 0).unwrap_err();
    match &e.kind {
        ParseErrorKind::UnknownStructArrayType(tag) => assert_eq!(tag, "IntProperty"),
        other => panic!("{:?}", other),
    }
    assert_eq!(e.kind.category(), ErrorCategory::UnknownTag);
    assert_eq!(e.context, vec![Stage::ArrayProperty, Stage::StructArray]);
    assert_eq!(e.input, &header[string("Items").len()..]);
}

#[test]
fn unknown_array_type_is_named() {
    let payload = array_payload("FloatProperty", 1, &[0, 0, 0, 0]);
    let e = parse_array_property(&payload, 0).unwrap_err();
    match &e.kind {
        ParseErrorKind::UnknownArrayType(tag) => assert_eq!(tag, "FloatProperty"),
        other => panic!("{:?}", other),
    }
    assert_eq!(e.kind.category(), ErrorCategory::UnknownTag);
    assert_eq!(e.context, vec![Stage::ArrayProperty]);
    assert_eq!(e.input, &[0u8, 0, 0, 0][..]);
}

fn map_payload(key_type: &str, value_type: &str, count: u32, body: &[u8]) -> Vec<u8> {
    let mut bytes = string(key_type);
    bytes.extend(string(value_type));
    bytes.extend_from_slice(&[0xFA; 5]);
    bytes.extend_from_slice(&count.to_le_bytes());
    bytes.extend_from_slice(body);
    bytes
}

#[test]
fn map_from_ints_to_ints_keeps_the_later_value() {
    let mut body = Vec::new();
    for (k, v) in [(1i32, 10i32), (2, 20), (1, 30)] {
        body.extend_from_slice(&k.to_le_bytes());
        body.extend_from_slice(&v.to_le_bytes());
    }
    let payload = map_payload("IntProperty", "IntProperty", 3, &body);
    let (rest, value) = parse_map_property(&payload, 0).unwrap();
    assert!(rest.is_empty());
    match value {
        Property::MapEntries(entries) => {
            assert_eq!(entries.len(), 2);
            let one = MapPropertyKey::Int(1);
            let two = MapPropertyKey::Int(2);
            assert!(matches!(entries.get(&one), Some(MapPropertyValue::Int(30))));
            assert!(matches!(entries.value(&one), Some(MapPropertyValue::Int(30))));
            assert!(entries.value(&MapPropertyKey::Int(9)).is_none());
            assert!(matches!(entries.get(&two), Some(MapPropertyValue::Int(20))));
            assert!(entries.get(&MapPropertyKey::Int(3)).is_none());
        }
        other => panic!("{:?}", other),
    }
}

#[test]
fn map_from_guids_to_floats_and_loose_bools() {
    let mut body = guid_bytes(1, 0, 0, 0);
    body.extend_from_slice(&1.5f32.to_le_bytes());
    let payload = map_payload("StructProperty", "FloatProperty", 1, &body);
    let (_, value) = parse_map_property(&payload, 0).unwrap();
    match value {
        Property::MapEntries(entries) => {
            let k = MapPropertyKey::Struct(Guid::from_groups(1, 0, 0, 0));
            match entries.get(&k) {
                Some(MapPropertyValue::Float(bits)) => assert_eq!(f32::from_bits(*bits), 1.5),
                other => panic!("{:?}", other),
            }
        }
        other => panic!("{:?}", other),
    }
    let mut body = Vec::new();
    for (k, v) in [(1i32, 0u8), (2, 1), (3, 2), (4, 0xFF)] {
        body.extend_from_slice(&k.to_le_bytes());
        body.push(v);
    }
    let payload = map_payload("IntProperty", "BoolProperty", 4, &body);
    let (_, value) = parse_map_property(&payload, 0).unwrap();
    match value {
        Property::MapEntries(entries) => {
            for (k, expected) in [(1, false), (2, true), (3, true), (4, true)] {
                assert!(matches!(
                    entries.get(&MapPropertyKey::Int(k)),
                    Some(MapPropertyValue::Bool(b)) if *b == expected
                ));
            }
        }
        other => panic!("{:?}", other),
    }
}

#[test]
fn map_to_structs_holds_bags() {
    let mut body = 5i32.to_le_bytes().to_vec();
    body.extend(record("X", "IntProperty", &int_payload(10)));
    body.extend(string("None"));
    let payload = map_payload("IntProperty", "StructProperty", 1, &body);
    let (rest, value) = parse_map_property(&payload, 1).unwrap();
    assert!(rest.is_empty());
    match value {
        Property::MapEntries(entries) => match entries.get(&MapPropertyKey::Int(5)) {
            Some(MapPropertyValue::Struct(bag)) => {
                assert!(matches!(bag.get(&key("X")), Some(Property::Int(10))));
            }
            other => panic!("{:?}", other),
        },
        other => panic!("{:?}", other),
    }
    let e = parse_map_property(&payload, 0).unwrap_err();
    assert!(matches!(e.kind, ParseErrorKind::NestingTooDeep));
    assert_eq!(e.context, vec![Stage::MapProperty, Stage::MapPropertyValue]);
}

#[test]
fn unknown_map_types_are_named() {
    let payload = map_payload("StrProperty", "IntProperty", 1, &[0; 8]);
    let e = parse_map_property(&payload, 0).unwrap_err();
    match &e.kind {
        ParseErrorKind::UnknownMapKeyType(tag) => assert_eq!(tag, "StrProperty"),
        other => panic!("{:?}", other),
    }
    assert_eq!(e.kind.category(), ErrorCategory::UnknownTag);
    assert_eq!(e.context, vec![Stage::MapProperty, Stage::MapPropertyKey]);
    let payload = map_payload("IntProperty", "StrProperty", 1, &[0; 8]);
    let e = parse_map_property(&payload, 0).unwrap_err();
    match &e.kind {
        ParseErrorKind::UnknownMapValueType(tag) => assert_eq!(tag, "StrProperty"),
        other => panic!("{:?}", other),
    }
    assert_eq!(e.kind.category(), ErrorCategory::UnknownTag);
    assert_eq!(e.context, vec![Stage::MapProperty, Stage::MapPropertyValue]);
    assert_eq!(e.input.len(), 4);
    let payload = map_payload("StrProperty", "StrProperty", 0, &[]);
    let (_, value) = parse_map_property(&payload, 0).unwrap();
    assert!(matches!(&value, Property::MapEntries(entries) if entries.is_empty()));
}

#[test]
fn map_that_is_cut_short_fails() {
    let payload = map_payload("IntProperty", "BoolProperty", 1, &[1, 0, 0, 0]);
    let e = parse_map_property(&payload, 0).unwrap_err();
    assert!(matches!(e.kind, ParseErrorKind::UnexpectedEof));
    assert_eq!(
        e.context,
        vec![Stage::MapProperty, Stage::MapPropertyValue, Stage::MapBoolProperty]
    );
    let mut header = string("IntProperty");
    header.extend(string("IntProperty"));
    header.extend_from_slice(&[0; 4]);
    let e = parse_map_property(&header, 0).unwrap_err();
    assert_eq!(e.context, vec![Stage::MapProperty]);
}

fn set_payload(element_type: &str, count: u32, body: &[u8]) -> Vec<u8> {
    let mut bytes = string(element_type);
    bytes.extend_from_slice(&[0xFB; 5]);
    bytes.extend_from_slice(&count.to_le_bytes());
    bytes.extend_from_slice(body);
    bytes
}

#[test]
fn set_of_guids_holds_each_once() {
    let mut body = guid_bytes(1, 2, 3, 4);
    body.extend(guid_bytes(0, 0, 0, 0));
    body.extend(guid_bytes(1, 2, 3, 4));
    body.push(6);
    let bytes_9 = set_payload("StructProperty", 3, &body);
    let (rest, value) = parse_set_property(&bytes_9).unwrap();
    assert_eq!(rest, &[6u8][..]);
    match value {
        Property::SetItems(items) => {
            assert_eq!(items.len(), 2);
            assert!(items.contains(&SetPropertyValue::Struct(Guid::from_groups(1, 2, 3, 4))));
            assert!(items.contains(&SetPropertyValue::Struct(Guid::from_groups(0, 0, 0, 0))));
            assert!(!items.contains(&SetPropertyValue::Struct(Guid::from_groups(4, 3, 2, 1))));
        }
        other => panic!("{:?}", other),
    }
}

#[test]
fn unknown_set_type_is_named() {
    let bytes_10 = set_payload("IntProperty", 1, &[1, 0, 0, 0]);
    let e = parse_set_property(&bytes_10).unwrap_err();
    match &e.kind {
        ParseErrorKind::UnknownSetType(tag) => assert_eq!(tag, "IntProperty"),
        other => panic!("{:?}", other),
    }
    assert_eq!(e.kind.category(), ErrorCategory::UnknownTag);
    assert_eq!(e.context, vec![Stage::SetProperty]);
    assert_eq!(e.input, &[1u8, 0, 0, 0][..]);
    let bytes_11 = set_payload("IntProperty", 0, &[]);
    let (_, value) = parse_set_property(&bytes_11).unwrap();
    assert!(matches!(&value, Property::SetItems(items) if items.is_empty()));
    let cut_short = set_payload("StructProperty", 1, &[0; 15]);
    let e = parse_set_property(&cut_short).unwrap_err();
    assert_eq!(e.context, vec![Stage::SetProperty, Stage::Guid]);
}

#[test]
fn bag_holds_every_kind_of_property() {
    let mut bytes = Vec::new();
    let mut text = vec![0];
    text.extend(string("t"));
    let mut enumeration = string("E");
    enumeration.push(0);
    enumeration.extend(string("E::A"));
    let mut delegates = vec![0];
    delegates.extend_from_slice(&0u32.to_le_bytes());
    bytes.extend(record("int", "IntProperty", &int_payload(1)));
    bytes.extend(record("uint", "UInt32Property", &int_payload(2)));
    bytes.extend(record("bool", "BoolProperty", &[0, 1]));
    bytes.extend(record("struct", "StructProperty", &struct_payload("Guid", &[0; 16])));
    bytes.extend(record("array", "ArrayProperty", &array_payload("IntProperty", 0, &[])));
    bytes.extend(record("float", "FloatProperty", &int_payload(0)));
    bytes.extend(record("str", "StrProperty", &text));
    bytes.extend(record("delegate", "MulticastInlineDelegateProperty", &delegates));
    bytes.extend(record(
        "map",
        "MapProperty",
        &map_payload("IntProperty", "IntProperty", 0, &[]),
    ));
    bytes.extend(record("set", "SetProperty", &set_payload("StructProperty", 0, &[])));
    bytes.extend(record("object", "ObjectProperty", &text));
    bytes.extend(record("enum", "EnumProperty", &enumeration));
    bytes.extend(record("name", "NameProperty", &text));
    bytes.extend(string("None"));
    let (rest, bag) = parse_property_map(&bytes, 0).unwrap();
    assert!(rest.is_empty());
    assert_eq!(bag.len(), 13);
    assert!(matches!(bag.get(&key("int")), Some(Property::Int(1))));
    assert!(matches!(bag.get(&key("uint")), Some(Property::UInt32(2))));
    assert!(matches!(bag.get(&key("bool")), Some(Property::Bool(true))));
    assert!(matches!(bag.get(&key("struct")), Some(Property::Struct(_))));
    assert!(matches!(bag.get(&key("array")), Some(Property::Array(_))));
    assert!(matches!(bag.get(&key("float")), Some(Property::Float(0))));
    assert!(matches!(bag.get(&key("str")), Some(Property::Str(_))));
    assert!(matches!(bag.get(&key("delegate")), Some(Property::MulticastInlineDelegate(_))));
    assert!(matches!(bag.get(&key("map")), Some(Property::MapEntries(_))));
    assert!(matches!(bag.get(&key("set")), Some(Property::SetItems(_))));
    assert!(matches!(bag.get(&key("object")), Some(Property::Object(_))));
    assert!(matches!(bag.get(&key("enum")), Some(Property::Enum { .. })));
    assert!(matches!(bag.get(&key("name")), Some(Property::Name(_))));
}
