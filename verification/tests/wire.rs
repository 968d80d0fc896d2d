use gvas_save_parser::wire::{
    read_i32, read_i64, read_i8, read_magic, read_u16, read_u32, read_u64, read_u8,
    skip_reserved, take_bytes,
};
use gvas_save_parser::ParseErrorKind;

#[test]
fn unsigned_fields_are_little_endian() {
    let bytes = [0x01u8, 0x02, 0x03, 0x04, 0x05, 0x06, 0x07, 0x08, 0x09];
    assert_eq!(read_u8(&bytes).unwrap(), (&bytes[1..], 0x01));
    assert_eq!(read_u16(&bytes).unwrap(), (&bytes[2..], 0x0201));
    assert_eq!(read_u32(&bytes).unwrap(), (&bytes[4..], 0x04030201));
    assert_eq!(read_u64(&bytes).unwrap(), (&bytes[8..], 0x0807060504030201));
}

#[test]
fn signed_fields_are_twos_complement() {
    assert_eq!(read_i8(&[0xFF, 1]).unwrap(), (&[1u8][..], -1));
    assert_eq!(read_i8(&[0x7F]).unwrap().1, 127);
    assert_eq!(read_i8(&[0x80]).unwrap().1, -128);
    assert_eq!(read_i32(&[0xFE, 0xFF, 0xFF, 0xFF]).unwrap().1, -2);
    assert_eq!(read_i32(&[0x00, 0x00, 0x00, 0x80]).unwrap().1, i32::MIN);
    assert_eq!(read_i32(&[0x2A, 0, 0, 0, 5]).unwrap(), (&[5u8][..], 42));
    assert_eq!(read_i64(&[0xFF; 8]).unwrap().1, -1);
    assert_eq!(read_i64(&[0, 0, 0, 0, 0, 0, 0, 0x80]).unwrap().1, i64::MIN);
    assert_eq!(
        read_i64(&[0x00, 0x10, 0xA5, 0xD4, 0xE8, 0, 0, 0, 1]).unwrap(),
        (&[1u8][..], 1_000_000_000_000)
    );
}

#[test]
fn fields_that_are_cut_short_fail_at_their_front() {
    let e = read_u32(&[1, 2, 3]).unwrap_err();
    assert!(matches!(e.kind, ParseErrorKind::UnexpectedEof));
    assert_eq!(e.input, &[1u8, 2, 3][..]);
    assert!(e.context.is_empty());
    assert!(read_u8(&[]).is_err());
    assert!(read_i8(&[]).is_err());
    assert!(read_u16(&[1]).is_err());
    assert!(read_i32(&[1, 2, 3]).is_err());
    assert!(read_u64(&[0; 7]).is_err());
    assert!(read_i64(&[0; 7]).is_err());
}

#[test]
fn reserved_regions_are_passed_over() {
    let bytes = [9u8, 8, 7, 6, 5];
    assert_eq!(skip_reserved(&bytes, 0).unwrap().0, &bytes[..]);
    assert_eq!(skip_reserved(&bytes, 2).unwrap().0, &bytes[2..]);
    assert!(skip_reserved(&bytes, 5).unwrap().0.is_empty());
    let e = skip_reserved(&bytes, 6).unwrap_err();
    assert!(matches!(e.kind, ParseErrorKind::UnexpectedEof));
    assert_eq!(e.input, &bytes[..]);
}

#[test]
fn bytes_are_handed_out_as_they_are() {
    let bytes = [9u8, 8, 7, 6, 5];
    assert_eq!(take_bytes(&bytes, 2).unwrap(), (&bytes[2..], &bytes[..2]));
    assert_eq!(take_bytes(&bytes, 0).unwrap(), (&bytes[..], &bytes[..0]));
    let e = take_bytes(&bytes, 6).unwrap_err();
    assert!(matches!(e.kind, ParseErrorKind::UnexpectedEof));
    assert!(e.input.is_empty());
}

#[test]
fn magic_marker_is_four_bytes() {
    assert_eq!(read_magic(b"GVAS\x01").unwrap().0, &[1u8][..]);
    for bytes in [&b"GVA"[..], &b"GVAX"[..], &b"gvas"[..], &b""[..], &b"XGVAS"[..]] {
        let e = read_magic(bytes).unwrap_err();
        assert!(matches!(e.kind, ParseErrorKind::BadMagic));
        assert_eq!(e.input, bytes);
    }
}
