use gvas_save_parser::primitives::{parse_bool, parse_guid, parse_string, Guid};
use gvas_save_parser::{ErrorCategory, ParseErrorKind, Stage};

fn narrow(text: &str) -> Vec<u8> {
    let mut bytes = Vec::new();
    if text.is_empty() {
        bytes.extend_from_slice(&0i32.to_le_bytes());
    } else {
        bytes.extend_from_slice(&((text.len() + 1) as i32).to_le_bytes());
        bytes.extend_from_slice(text.as_bytes());
        bytes.push(0);
    }
    bytes
}

fn wide(text: &str) -> Vec<u8> {
    let units: Vec<u16> = text.encode_utf16().collect();
    let mut bytes = Vec::new();
    bytes.extend_from_slice(&(-((units.len() + 1) as i32)).to_le_bytes());
    for unit in units {
        bytes.extend_from_slice(&unit.to_le_bytes());
    }
    bytes.extend_from_slice(&[0, 0]);
    bytes
}

#[test]
fn string_of_length_zero_is_empty() {
    let bytes = [0u8, 0, 0, 0, 7];
    let (rest, text) = parse_string(&bytes).unwrap();
    assert_eq!(text, "");
    assert_eq!(rest, &[7u8][..]);
}

#[test]
fn narrow_string_drops_terminator() {
    let bytes = [5u8, 0, 0, 0, b'a', b'b', b'c', b'd', 0];
    let (rest, text) = parse_string(&bytes).unwrap();
    assert_eq!(text, "abcd");
    assert!(rest.is_empty());
}

#[test]
fn narrow_string_leaves_what_follows() {
    let mut bytes = narrow("Level");
    bytes.extend_from_slice(&[1, 2, 3]);
    let (rest, text) = parse_string(&bytes).unwrap();
    assert_eq!(text, "Level");
    assert_eq!(rest, &[1u8, 2, 3][..]);
}

#[test]
fn narrow_string_drops_its_last_character_whatever_it_is() {
    let bytes = [3u8, 0, 0, 0, b'a', b'b', b'c'];
    let (_, text) = parse_string(&bytes).unwrap();
    assert_eq!(text, "ab");
    let bytes = [3u8, 0, 0, 0, b'a', 0xC3, 0xA9];
    let (rest, text) = parse_string(&bytes).unwrap();
    assert_eq!(text, "a");
    assert!(rest.is_empty());
}

#[test]
fn narrow_string_decodes_utf8() {
    let bytes = narrow("gr\u{fc}n \u{1F499}");
    let (_, text) = parse_string(&bytes).unwrap();
    assert_eq!(text, "gr\u{fc}n \u{1F499}");
}

#[test]
fn wide_string_drops_terminator() {
    let bytes = [0xFDu8, 0xFF, 0xFF, 0xFF, b'h', 0, b'i', 0, 0, 0];
    let (rest, text) = parse_string(&bytes).unwrap();
    assert_eq!(text, "hi");
    assert!(rest.is_empty());
}

#[test]
fn wide_string_of_three_units_gives_their_text_without_the_last() {
    let bytes = [0xFDu8, 0xFF, 0xFF, 0xFF, 0x16, 0x04, 0x3C, 0x04, 0x00, 0x00, 9];
    let (rest, text) = parse_string(&bytes).unwrap();
    assert_eq!(text, "\u{416}\u{43C}");
    assert_eq!(rest, &[9u8][..]);
}

#[test]
fn wide_string_decodes_surrogate_pairs() {
    let bytes = wide("a\u{1F499}b");
    let (rest, text) = parse_string(&bytes).unwrap();
    assert_eq!(text, "a\u{1F499}b");
    assert!(rest.is_empty());
}

#[test]
fn wide_string_rejects_a_lone_surrogate() {
    let bytes = [0xFEu8, 0xFF, 0xFF, 0xFF, 0x00, 0xD8, 0x00, 0x00, 5];
    let e = parse_string(&bytes).unwrap_err();
    assert!(matches!(e.kind, ParseErrorKind::InvalidUtf16));
    assert_eq!(e.kind.category(), ErrorCategory::Encoding);
    assert_eq!(e.context, vec![Stage::String]);
    assert_eq!(e.input, &bytes[4..]);
}

#[test]
fn narrow_string_rejects_bytes_that_are_not_utf8() {
    let bytes = [3u8, 0, 0, 0, 0xFF, 0xFE, 0];
    let e = parse_string(&bytes).unwrap_err();
    assert!(matches!(e.kind, ParseErrorKind::InvalidUtf8));
    assert_eq!(e.kind.category(), ErrorCategory::Encoding);
    assert_eq!(e.context, vec![Stage::String]);
    assert_eq!(e.input, &bytes[4..]);
}

#[test]
fn string_length_window_is_open_at_both_ends() {
    let too_long = 0x1_0000i32.to_le_bytes();
    let e = parse_string(&too_long).unwrap_err();
    assert!(matches!(e.kind, ParseErrorKind::StringLength(0x1_0000)));
    assert_eq!(e.kind.category(), ErrorCategory::Encoding);
    assert_eq!(e.input.len(), 4);
    let too_wide = (-0x1_0000i32).to_le_bytes();
    let e = parse_string(&too_wide).unwrap_err();
    assert!(matches!(e.kind, ParseErrorKind::StringLength(-0x1_0000)));
    let mut longest = 0xFFFFi32.to_le_bytes().to_vec();
    longest.extend(std::iter::repeat(b'x').take(0xFFFF));
    let (rest, text) = parse_string(&longest).unwrap();
    assert_eq!(text.len(), 0xFFFE);
    assert!(rest.is_empty());
    let mut widest = (-0xFFFFi32).to_le_bytes().to_vec();
    for _ in 0..0xFFFF {
        widest.extend_from_slice(&[b'y', 0]);
    }
    let (rest, text) = parse_string(&widest).unwrap();
    assert_eq!(text.len(), 0xFFFE);
    assert!(rest.is_empty());
}

#[test]
fn string_that_is_cut_short_fails_where_the_input_ends() {
    let e = parse_string(&[5, 0, 0]).unwrap_err();
    assert!(matches!(e.kind, ParseErrorKind::UnexpectedEof));
    assert_eq!(e.kind.category(), ErrorCategory::Structure);
    assert_eq!(e.input, &[5u8, 0, 0][..]);
    let e = parse_string(&[5, 0, 0, 0, b'a', b'b']).unwrap_err();
    assert!(matches!(e.kind, ParseErrorKind::UnexpectedEof));
    assert!(e.input.is_empty());
    assert_eq!(e.context, vec![Stage::String]);
    let e = parse_string(&[0xFE, 0xFF, 0xFF, 0xFF, b'a', 0, b'b']).unwrap_err();
    assert!(matches!(e.kind, ParseErrorKind::UnexpectedEof));
    assert_eq!(e.input, &[b'b'][..]);
}

#[test]
fn guid_groups_render_as_hex() {
    let bytes = [
        0x50u8, 0x1A, 0x4F, 0x4C, 0xCC, 0x24, 0xCB, 0x42, 0xB0, 0x28, 0x7F, 0x2A, 0xF9, 0xAE,
        0x12, 0x0D,
    ];
    let (rest, guid) = parse_guid(&bytes).unwrap();
    assert!(rest.is_empty());
    assert!(!guid.is_null());
    assert_eq!(guid.text(), Some("4C4F1A50-42CB24CC-2A7F28B0-0D12AEF9"));
    assert_eq!(guid, Guid::from_groups(0x4C4F1A50, 0x42CB24CC, 0x2A7F28B0, 0x0D12AEF9));
}

#[test]
fn guid_of_zero_groups_is_null() {
    let bytes = [0u8; 17];
    let (rest, guid) = parse_guid(&bytes).unwrap();
    assert!(guid.is_null());
    assert_eq!(guid.text(), None);
    assert_eq!(rest.len(), 1);
    assert_eq!(guid, Guid::from_groups(0, 0, 0, 0));
}

#[test]
fn guid_with_one_group_set_is_not_null() {
    let mut bytes = [0u8; 16];
    bytes[12] = 1;
    let (_, guid) = parse_guid(&bytes).unwrap();
    assert_eq!(guid.text(), Some("00000000-00000000-00000000-00000001"));
    assert!(!guid.same(&Guid::from_groups(0, 0, 0, 0)));
    assert!(guid.same(&Guid::from_groups(0, 0, 0, 1)));
}

#[test]
fn guid_that_is_cut_short_fails_at_the_group_that_is_not_whole() {
    let bytes = [1u8, 2, 3, 4, 5, 6, 7, 8, 9, 10];
    let e = parse_guid(&bytes).unwrap_err();
    assert!(matches!(e.kind, ParseErrorKind::UnexpectedEof));
    assert_eq!(e.context, vec![Stage::Guid]);
    assert_eq!(e.input, &[9u8, 10][..]);
}

#[test]
fn strict_bool_rejects_other_bytes() {
    assert_eq!(parse_bool(&[0]).unwrap().1, false);
    assert_eq!(parse_bool(&[1]).unwrap().1, true);
    let e = parse_bool(&[2, 9]).unwrap_err();
    assert!(matches!(e.kind, ParseErrorKind::InvalidBool(2)));
    assert_eq!(e.kind.category(), ErrorCategory::Encoding);
    assert_eq!(e.input, &[2u8, 9][..]);
    assert_eq!(e.context, vec![Stage::Bool]);
    let e = parse_bool(&[]).unwrap_err();
    assert!(matches!(e.kind, ParseErrorKind::UnexpectedEof));
}
