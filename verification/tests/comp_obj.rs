use ms_oforms::common::parser::{
    parse_ansi_clipboard_format, parse_comp_obj_header, parse_length_prefixed_ansi_string,
    read_clipboard_format, read_length_prefixed_ansi_string,
};
use ms_oforms::common::{parse_comp_obj, ClipboardFormat, CompObj, CompObjHeader};
use ms_oforms::error::{DecodeError, ErrorKind, Field, RecordKind};

/// A CompObj stream of a form: header, user type, clipboard format, and the
/// reserved string and Unicode marker that follow them.
fn fixture() -> Vec<u8> {
    let mut data = Vec::new();
    data.extend_from_slice(&[0x01, 0x00, 0xFE, 0xFF, 0x03, 0x0A, 0x00, 0x00]);
    data.extend_from_slice(&[0xFF, 0xFF, 0xFF, 0xFF]);
    data.extend_from_slice(&[
        0xDE, 0x80, 0x5B, 0x10, 0xF1, 0x95, 0xD0, 0x11, 0xB0, 0xA0, 0x00, 0xAA, 0x00, 0xBD, 0xCB,
        0x5C,
    ]);
    assert_eq!(data.len(), 28);
    data.extend_from_slice(&23u32.to_le_bytes());
    data.extend_from_slice(b"Microsoft DDS Form 2.0\0");
    assert_eq!(data.len(), 55);
    data.extend_from_slice(&16u32.to_le_bytes());
    data.extend_from_slice(b"Embedded Object\0");
    assert_eq!(data.len(), 75);
    data.extend_from_slice(&[0x00, 0x00, 0x00, 0x00, 0xF4, 0x39, 0xB2, 0x71]);
    data
}

#[test]
fn test() {
    let data = fixture();
    let data: &[u8] = &data;
    let user_type = b"Microsoft DDS Form 2.0".to_vec();
    let fmt = b"Embedded Object".to_vec();
    assert_eq!(
        parse_comp_obj_header(data).ok(),
        Some((&data[28..], CompObjHeader {})),
    );
    assert_eq!(
        parse_length_prefixed_ansi_string(&data[28..]).ok(),
        Some((&data[55..], user_type.clone())),
    );
    assert_eq!(
        parse_ansi_clipboard_format(&data[55..]).ok(),
        Some((&data[75..], ClipboardFormat::Custom(fmt.clone()))),
    );

    assert_eq!(
        parse_comp_obj(data).ok(),
        Some((
            &data[75..],
            CompObj {
                ansi_user_type: user_type,
                ansi_clipboard_format: ClipboardFormat::Custom(fmt),
            }
        ))
    )
}

#[test]
fn comp_obj_leaves_the_trailing_bytes() {
    let data = fixture();
    let (rest, _) = parse_comp_obj(&data).unwrap();
    assert_eq!(rest, &[0x00, 0x00, 0x00, 0x00, 0xF4, 0x39, 0xB2, 0x71][..]);
    assert_eq!(
        read_length_prefixed_ansi_string(&data, 28),
        Ok((b"Microsoft DDS Form 2.0".to_vec(), 55))
    );
    assert_eq!(
        read_clipboard_format(&data, 55),
        Ok((ClipboardFormat::Custom(b"Embedded Object".to_vec()), 75))
    );
}

fn with_format(format: &[u8]) -> Vec<u8> {
    let mut data = vec![0u8; 28];
    data.extend_from_slice(&2u32.to_le_bytes());
    data.extend_from_slice(b"A\0");
    data.extend_from_slice(format);
    data
}

#[test]
fn comp_obj_clipboard_formats() {
    let data = with_format(&[0, 0, 0, 0, 9]);
    assert_eq!(
        parse_comp_obj(&data),
        Ok((
            &[9u8][..],
            CompObj {
                ansi_user_type: b"A".to_vec(),
                ansi_clipboard_format: ClipboardFormat::Unset,
            }
        ))
    );
    let data = with_format(&[0xFF, 0xFF, 0xFF, 0xFF, 0x0D, 0, 0, 0]);
    assert_eq!(
        parse_comp_obj(&data).unwrap().1.ansi_clipboard_format,
        ClipboardFormat::Standard(13)
    );
    let data = with_format(&[0xFE, 0xFF, 0xFF, 0xFF, 0x02, 0x01, 0, 0]);
    assert_eq!(
        parse_comp_obj(&data).unwrap().1.ansi_clipboard_format,
        ClipboardFormat::Standard(0x102)
    );
    assert_eq!(
        ClipboardFormat::custom(b"Link Source"),
        ClipboardFormat::Custom(b"Link Source".to_vec())
    );
}

fn err(kind: ErrorKind, field: Field, offset: usize) -> DecodeError {
    DecodeError { kind, record: RecordKind::CompObj, field, offset }
}

#[test]
fn comp_obj_truncations() {
    assert_eq!(
        parse_comp_obj(&[0u8; 27]),
        Err(err(ErrorKind::Truncated, Field::Header, 0))
    );
    assert_eq!(
        parse_comp_obj(&[0u8; 30]),
        Err(err(ErrorKind::Truncated, Field::UserTypeLength, 28))
    );
    let mut data = vec![0u8; 28];
    data.extend_from_slice(&5u32.to_le_bytes());
    data.extend_from_slice(b"abc\0");
    assert_eq!(
        parse_comp_obj(&data),
        Err(err(ErrorKind::Truncated, Field::UserType, 32))
    );
    let data = with_format(&[0, 0]);
    assert_eq!(
        parse_comp_obj(&data),
        Err(err(ErrorKind::Truncated, Field::ClipboardFormatMarker, 34))
    );
    let data = with_format(&[0xFF, 0xFF, 0xFF, 0xFF, 1]);
    assert_eq!(
        parse_comp_obj(&data),
        Err(err(ErrorKind::Truncated, Field::ClipboardFormat, 38))
    );
    let data = with_format(&[4, 0, 0, 0, b'a', 0]);
    assert_eq!(
        parse_comp_obj(&data),
        Err(err(ErrorKind::Truncated, Field::ClipboardFormat, 38))
    );
}

#[test]
fn comp_obj_strings_must_end_in_their_only_nul() {
    let mut data = vec![0u8; 28];
    data.extend_from_slice(&3u32.to_le_bytes());
    data.extend_from_slice(b"abc");
    data.extend_from_slice(&[0, 0, 0, 0]);
    assert_eq!(
        parse_comp_obj(&data),
        Err(err(ErrorKind::ConstraintViolation, Field::UserType, 32))
    );
    let mut data = vec![0u8; 28];
    data.extend_from_slice(&4u32.to_le_bytes());
    data.extend_from_slice(b"a\0b\0");
    data.extend_from_slice(&[0, 0, 0, 0]);
    assert_eq!(
        parse_comp_obj(&data),
        Err(err(ErrorKind::ConstraintViolation, Field::UserType, 32))
    );
    let mut data = vec![0u8; 28];
    data.extend_from_slice(&0u32.to_le_bytes());
    data.extend_from_slice(&[0, 0, 0, 0]);
    assert_eq!(
        parse_comp_obj(&data),
        Err(err(ErrorKind::ConstraintViolation, Field::UserType, 32))
    );
    let data = with_format(&[2, 0, 0, 0, b'a', b'b']);
    assert_eq!(
        parse_comp_obj(&data),
        Err(err(ErrorKind::ConstraintViolation, Field::ClipboardFormat, 38))
    );
}
