use ms_oforms::common::{
    Guid, CLSID_DT_DDSFORM_21_FONT_NEW, CLSID_STD_FONT, CLSID_STD_PICTURE, CLSID_TEXT_PROPS,
};
use ms_oforms::error::{DecodeError, ErrorKind, Field, RecordKind};
use ms_oforms::properties::font::parser::{parse_guid_and_font, parse_std_font};
use ms_oforms::properties::font::{
    DdsForm21FontNew, FontFlags, FormFont, GuidAndFont, StdFont, TextProps,
};

const TAHOMA: [u8; 17] = [
    0x01, 0x00, 0x00, 0x00, 0x90, 0x01, 0x44, 0x42, 0x01, 0x00, 0x06, 0x54, 0x61, 0x68, 0x6f,
    0x6d, 0x61,
];

fn tahoma() -> StdFont {
    StdFont {
        charset: 0,
        flags: FontFlags::empty(),
        weight: 0x190,
        height: 0x14244,
        font_face: String::from("Tahoma"),
    }
}

#[test]
fn test_parse_std_font() {
    let bytes = [
        0x01, 0x00, 0x00, 0x00, 0x90, 0x01, 0x44, 0x42, 0x01, 0x00, 0x06, 0x54, 0x61, 0x68,
        0x6f, 0x6d, 0x61,
    ];
    assert_eq!(
        parse_std_font(&bytes),
        Ok((
            &[][..],
            StdFont {
                charset: 0,
                flags: FontFlags::empty(),
                weight: 0x190,
                height: 0x14244,
                font_face: String::from("Tahoma"),
            }
        ))
    )
}

fn font_err(kind: ErrorKind, field: Field, offset: usize) -> DecodeError {
    DecodeError { kind, record: RecordKind::StdFont, field, offset }
}

fn patched(at: usize, bytes: &[u8]) -> Vec<u8> {
    let mut v = TAHOMA.to_vec();
    v[at..at + bytes.len()].copy_from_slice(bytes);
    v
}

#[test]
fn std_font_fields() {
    let mut bytes = patched(1, &[0xFE, 0xFF]);
    bytes[3] = 0x0A;
    bytes.push(0x77);
    let (rest, font) = parse_std_font(&bytes).unwrap();
    assert_eq!(rest, &[0x77][..]);
    assert_eq!(font.charset, -2);
    assert_eq!(font.flags, FontFlags { bits: FontFlags::ITALIC | FontFlags::STRIKETHROUGH });
    assert!(font.flags.contains(FontFlags::ITALIC));
    assert!(!font.flags.contains(FontFlags::BOLD));
    assert_eq!(font.flags.bits(), 0x0A);
}

#[test]
fn std_font_constraints() {
    assert_eq!(
        parse_std_font(&patched(0, &[2])),
        Err(font_err(ErrorKind::BadMagic, Field::Version, 0))
    );
    assert_eq!(
        parse_std_font(&patched(3, &[0x10])),
        Err(font_err(ErrorKind::UnknownBits(0x10), Field::FontFlags, 3))
    );
    assert_eq!(
        parse_std_font(&patched(4, &[0xE9, 0x03])),
        Err(font_err(ErrorKind::ConstraintViolation, Field::Weight, 4))
    );
    assert_eq!(
        parse_std_font(&patched(4, &[0xFF, 0xFF])),
        Err(font_err(ErrorKind::ConstraintViolation, Field::Weight, 4))
    );
    assert!(parse_std_font(&patched(4, &[0xE8, 0x03])).is_ok());
    assert!(parse_std_font(&patched(4, &[0x00, 0x00])).is_ok());
    assert_eq!(
        parse_std_font(&patched(6, &[0, 0, 0, 0])),
        Err(font_err(ErrorKind::ConstraintViolation, Field::Height, 6))
    );
    assert_eq!(
        parse_std_font(&patched(6, &655_350_001u32.to_le_bytes())),
        Err(font_err(ErrorKind::ConstraintViolation, Field::Height, 6))
    );
    assert_eq!(
        parse_std_font(&patched(6, &655_350_000u32.to_le_bytes())).unwrap().1.height,
        655_350_000
    );
    assert_eq!(
        parse_std_font(&patched(10, &[32])),
        Err(font_err(ErrorKind::ConstraintViolation, Field::FaceLength, 10))
    );
    assert_eq!(
        parse_std_font(&patched(13, &[0x80])),
        Err(font_err(ErrorKind::ConstraintViolation, Field::FontFace, 11))
    );
    let mut long = patched(10, &[31]);
    long.truncate(11);
    long.extend_from_slice(&[b'x'; 31]);
    assert_eq!(parse_std_font(&long).unwrap().1.font_face, "x".repeat(31));
}

#[test]
fn std_font_truncations() {
    let cases = [
        (0, Field::Version, 0),
        (1, Field::Charset, 1),
        (2, Field::Charset, 1),
        (3, Field::FontFlags, 3),
        (4, Field::Weight, 4),
        (5, Field::Weight, 4),
        (6, Field::Height, 6),
        (9, Field::Height, 6),
        (10, Field::FaceLength, 10),
        (11, Field::FontFace, 11),
        (16, Field::FontFace, 11),
    ];
    for (len, field, offset) in cases {
        assert_eq!(
            parse_std_font(&TAHOMA[..len]),
            Err(font_err(ErrorKind::Truncated, field, offset)),
            "{} bytes",
            len
        );
    }
}

fn guid_bytes(g: Guid) -> Vec<u8> {
    let mut v = Vec::new();
    v.extend_from_slice(&g.data1.to_le_bytes());
    v.extend_from_slice(&g.data2.to_le_bytes());
    v.extend_from_slice(&g.data3.to_le_bytes());
    v.extend_from_slice(&g.data4.to_be_bytes());
    v
}

#[test]
fn font_is_chosen_by_its_guid() {
    let mut bytes = guid_bytes(CLSID_STD_FONT());
    bytes.extend_from_slice(&TAHOMA);
    bytes.push(1);
    assert_eq!(
        parse_guid_and_font(&bytes),
        Ok((
            &[1u8][..],
            GuidAndFont { guid: CLSID_STD_FONT(), font: FormFont::StdFont(tahoma()) }
        ))
    );

    let mut bytes = guid_bytes(CLSID_DT_DDSFORM_21_FONT_NEW());
    bytes.extend_from_slice(&[0, 0, 8, 0, 1, 0, 0, 0, 2, 0, 0, 0]);
    assert_eq!(
        parse_guid_and_font(&bytes),
        Ok((
            &[][..],
            GuidAndFont {
                guid: CLSID_DT_DDSFORM_21_FONT_NEW(),
                font: FormFont::DdsForm21FontNew(DdsForm21FontNew { d1: 1, d2: 2 }),
            }
        ))
    );

    let mut bytes = guid_bytes(CLSID_TEXT_PROPS());
    bytes.extend_from_slice(&[5, 6]);
    assert_eq!(
        parse_guid_and_font(&bytes),
        Ok((
            &[5u8, 6][..],
            GuidAndFont { guid: CLSID_TEXT_PROPS(), font: FormFont::TextProps(TextProps {}) }
        ))
    );

    let bytes = guid_bytes(Guid::nil());
    assert_eq!(parse_guid_and_font(&bytes), Ok((&[][..], GuidAndFont::EMPTY())));
}

#[test]
fn font_of_unknown_class_is_rejected() {
    let bytes = guid_bytes(CLSID_STD_PICTURE());
    assert_eq!(
        parse_guid_and_font(&bytes),
        Err(DecodeError {
            kind: ErrorKind::UnknownGuid,
            record: RecordKind::GuidAndFont,
            field: Field::Guid,
            offset: 0,
        })
    );
    assert_eq!(
        parse_guid_and_font(&bytes[..15]),
        Err(DecodeError {
            kind: ErrorKind::Truncated,
            record: RecordKind::GuidAndFont,
            field: Field::Guid,
            offset: 0,
        })
    );
}

#[test]
fn font_errors_lie_behind_the_guid() {
    let mut bytes = guid_bytes(CLSID_STD_FONT());
    bytes.extend_from_slice(&TAHOMA[..8]);
    assert_eq!(
        parse_guid_and_font(&bytes),
        Err(font_err(ErrorKind::Truncated, Field::Height, 22))
    );
    let dds = |payload: &[u8]| {
        let mut bytes = guid_bytes(CLSID_DT_DDSFORM_21_FONT_NEW());
        bytes.extend_from_slice(payload);
        parse_guid_and_font(&bytes).map(|(_, f)| f)
    };
    let e = |kind, field, offset| {
        Err(DecodeError { kind, record: RecordKind::DdsForm21FontNew, field, offset })
    };
    assert_eq!(dds(&[0]), e(ErrorKind::Truncated, Field::Version, 16));
    assert_eq!(dds(&[0, 1, 8, 0]), e(ErrorKind::BadMagic, Field::Version, 16));
    assert_eq!(dds(&[0, 0, 8]), e(ErrorKind::Truncated, Field::ByteCount, 18));
    assert_eq!(dds(&[0, 0, 9, 0]), e(ErrorKind::ConstraintViolation, Field::ByteCount, 18));
    assert_eq!(dds(&[0, 0, 8, 0, 1, 2, 3, 4, 5, 6, 7]), e(ErrorKind::Truncated, Field::Data, 20));
}
