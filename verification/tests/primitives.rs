use ms_oforms::common::parser::{
    le_bytes, le_i16, le_i32, le_u16, le_u32, le_u8, parse_guid, read_header, tag_guid, to_i16,
    to_i32, AlignedParser,
};
use ms_oforms::common::props::{read_fixed_block, run_check, Check, Prop, Variant};
use ms_oforms::common::{
    Guid, VarFlags, VarType, CLSID_DT_DDSFORM_21_FONT_NEW, CLSID_STD_FONT, IID_IDISPATCH,
};
use ms_oforms::error::{DecodeError, ErrorKind, Field, RecordKind};
use ms_oforms::properties::parser::{read_position, read_size};
use ms_oforms::properties::{
    FormEmbeddedActiveXControlCached, MousePointer, PictureAlignment, PictureSizeMode, Position,
    Size, SpecialEffect,
};

#[test]
fn little_endian_reads() {
    let input = [0x01, 0x02, 0x03, 0x04, 0xFF, 0xFE];
    assert_eq!(le_u8(&input, 1), Some(0x02));
    assert_eq!(le_u8(&input, 6), None);
    assert_eq!(le_u16(&input, 1), Some(0x0302));
    assert_eq!(le_u16(&input, 5), None);
    assert_eq!(le_u32(&input, 0), Some(0x0403_0201));
    assert_eq!(le_u32(&input, 2), Some(0xFEFF_0403));
    assert_eq!(le_u32(&input, 3), None);
    assert_eq!(le_i16(&input, 4), Some(-257));
    assert_eq!(le_i32(&input, 2), Some(0xFEFF_0403u32 as i32));
    assert_eq!(le_bytes(&input, 4, 1), Some(0xFF));
    assert_eq!(le_bytes(&input, 4, 2), Some(0xFEFF));
    assert_eq!(le_bytes(&input, 4, 4), None);
    assert_eq!(to_i16(0xFFFF), -1);
    assert_eq!(to_i16(0x8000), i16::MIN);
    assert_eq!(to_i16(0x7FFF), i16::MAX);
    assert_eq!(to_i32(0xFFFF_FFFF), -1);
    assert_eq!(to_i32(0x8000_0000), i32::MIN);
    assert_eq!(to_i32(0x7FFF_FFFF), i32::MAX);
}

#[test]
fn aligned_reads_pad_on_the_logical_cursor() {
    let input = [0xAA, 1, 0, 2, 0, 0, 0, 9, 0xBB, 0xCC, 0xDD, 3, 0, 0, 0];
    let mut ap = AlignedParser::new();
    assert_eq!(ap.cursor, 0);
    // the record starts at byte 1 of the input: its cursor is at zero there
    assert_eq!(ap.le_u16(&input, 1), Some((1, 3)));
    assert_eq!(ap.cursor, 2);
    assert_eq!(ap.le_u8(&input, 3), Some((2, 4)));
    assert_eq!(ap.cursor, 3);
    // one byte of padding brings the cursor to 4
    assert_eq!(ap.le_u16(&input, 4), Some((0, 7)));
    assert_eq!(ap.cursor, 6);
    assert_eq!(ap.le_u8(&input, 7), Some((9, 8)));
    assert_eq!(ap.cursor, 7);
    // one byte of padding in front of a u32
    assert_eq!(ap.le_u32(&input, 8), Some((0x0003_DDCC, 13)));
    assert_eq!(ap.cursor, 12);
    // the input ends inside the value: nothing moves
    assert_eq!(ap.le_u32(&input, 13), None);
    assert_eq!(ap.cursor, 12);
    // three bytes of padding
    let mut ap = AlignedParser { cursor: 5 };
    assert_eq!(ap.le_u32(&input, 8), Some((3, 15)));
    assert_eq!(ap.cursor, 12);
    assert_eq!(ap.align(&input, 15, 4), Some(15));
    ap.inc(1);
    assert_eq!(ap.cursor, 13);
    assert_eq!(ap.align(&input, 12, 4), Some(15));
    assert_eq!(ap.cursor, 16);
    let mut ap = AlignedParser { cursor: 1 };
    assert_eq!(ap.align(&input, 13, 4), None);
    assert_eq!(ap.cursor, 1);
    assert_eq!(ap.align(&input, 13, 2), Some(14));
    assert_eq!(ap.align(&input, 14, 1), Some(14));
    let mut ap = AlignedParser::new();
    assert_eq!(ap.le_i16(&[0xFE, 0xFF], 0), Some((-2, 2)));
    assert_eq!(ap.le_i32(&[0, 0, 9, 9, 0xFF, 0xFF, 0xFF, 0xFF], 2), Some((-1, 8)));
    assert_eq!(ap.read(&[1, 2, 3], 0, 4), None);
    assert_eq!(ap.cursor, 8);
}

#[test]
fn guid_is_mixed_endian() {
    let bytes = [
        0x03, 0x52, 0xE3, 0x0B, 0x91, 0x8F, 0xCE, 0x11, 0x9D, 0xE3, 0x00, 0xAA, 0x00, 0x4B, 0xB8,
        0x51, 0x01,
    ];
    assert_eq!(parse_guid(&bytes), Ok((&[0x01u8][..], CLSID_STD_FONT())));
    assert_eq!(
        parse_guid(&bytes).unwrap().1,
        Guid { data1: 0x0BE35203, data2: 0x8F91, data3: 0x11CE, data4: 0x9DE3_00AA_004B_B851 }
    );
    assert_eq!(parse_guid(&[0; 16]), Ok((&[][..], Guid::nil())));
    let truncated = Err(DecodeError {
        kind: ErrorKind::Truncated,
        record: RecordKind::Guid,
        field: Field::Value,
        offset: 0,
    });
    assert_eq!(parse_guid(&bytes[..15]), truncated);
    assert_eq!(tag_guid(CLSID_STD_FONT(), &bytes[..15]), truncated);
    assert_eq!(tag_guid(CLSID_STD_FONT(), &bytes), Ok((&[0x01u8][..], CLSID_STD_FONT())));
    assert_eq!(
        tag_guid(CLSID_DT_DDSFORM_21_FONT_NEW(), &bytes),
        Err(DecodeError {
            kind: ErrorKind::UnknownGuid,
            record: RecordKind::Guid,
            field: Field::Value,
            offset: 0,
        })
    );
    assert_eq!(
        IID_IDISPATCH(),
        Guid { data1: 0x0002_0400, data2: 0, data3: 0, data4: 0xC000_0000_0000_0046 }
    );
}

#[test]
fn headers() {
    let e = |kind, offset| {
        Err(DecodeError { kind, record: RecordKind::FormControl, field: Field::Header, offset })
    };
    assert_eq!(read_header(RecordKind::FormControl, &[9, 0, 4, 0x34, 0x12], 1, 0, 4), Ok((0x1234, 5)));
    assert_eq!(read_header(RecordKind::FormControl, &[0, 4, 1], 0, 0, 4), e(ErrorKind::Truncated, 2));
    assert_eq!(read_header(RecordKind::FormControl, &[0], 0, 0, 4), e(ErrorKind::Truncated, 0));
    assert_eq!(read_header(RecordKind::FormControl, &[0, 5, 0, 0], 0, 0, 4), e(ErrorKind::BadMagic, 0));
    assert_eq!(read_header(RecordKind::FormControl, &[1, 4, 0, 0], 0, 0, 4), e(ErrorKind::BadMagic, 0));
}

#[test]
fn sizes_and_positions() {
    let bytes = [0x10, 0, 0, 0, 0xFF, 0xFF, 0xFF, 0xFF, 0x77];
    assert_eq!(Size::parse(&bytes), Ok((&[0x77u8][..], Size::new(16, u32::MAX))));
    assert_eq!(Position::parse(&bytes), Ok((&[0x77u8][..], Position { left: 16, top: -1 })));
    assert_eq!(read_size(&bytes, 1), Some(Size { width: 0xFF00_0000, height: 0x77FF_FFFF }));
    assert_eq!(read_size(&bytes, 2), None);
    assert_eq!(read_position(&bytes, 2), None);
    assert_eq!(Position::default(), Position::new(0, 0));
    assert_eq!(
        Size::parse(&bytes[..7]),
        Err(DecodeError {
            kind: ErrorKind::Truncated,
            record: RecordKind::Size,
            field: Field::Value,
            offset: 0,
        })
    );
    assert_eq!(
        Position::parse(&bytes[..7]),
        Err(DecodeError {
            kind: ErrorKind::Truncated,
            record: RecordKind::Position,
            field: Field::Value,
            offset: 0,
        })
    );
}

#[test]
fn checks() {
    assert_eq!(run_check(Check::Any, 0xFFFF_FFFF), None);
    assert_eq!(run_check(Check::Bits(0x0F), 0x0A), None);
    assert_eq!(run_check(Check::Bits(0x0F), 0x1A), Some(ErrorKind::UnknownBits(0x1A)));
    assert_eq!(run_check(Check::Placeholder, 0xFFFF), None);
    assert_eq!(run_check(Check::Placeholder, 0xFFFE), Some(ErrorKind::PlaceholderMismatch));
    assert_eq!(run_check(Check::Range(10, 400), 10), None);
    assert_eq!(run_check(Check::Range(10, 400), 400), None);
    assert_eq!(run_check(Check::Range(10, 400), 9), Some(ErrorKind::ConstraintViolation));
    assert_eq!(run_check(Check::Range(10, 400), 401), Some(ErrorKind::ConstraintViolation));
    assert_eq!(run_check(Check::Color, 0x0200_0000), None);
    assert_eq!(run_check(Check::Color, 0x0400_0000), Some(ErrorKind::UnknownEnum(4)));
    let sets: [(Variant, &[u32]); 6] = [
        (Variant::BorderStyle, &[0, 1]),
        (Variant::Cycle, &[0, 2]),
        (Variant::MousePointer, &[0, 1, 2, 3, 6, 7, 8, 9, 10, 11, 12, 13, 14, 15, 99]),
        (Variant::SpecialEffect, &[0, 1, 2, 3, 6]),
        (Variant::PictureAlignment, &[0, 1, 2, 3, 4]),
        (Variant::PictureSizeMode, &[0, 1, 3]),
    ];
    for (kind, set) in sets {
        for v in 0u32..=255 {
            let expected = if set.contains(&v) { None } else { Some(ErrorKind::UnknownEnum(v)) };
            assert_eq!(run_check(Check::Variant(kind), v), expected);
        }
    }
}

#[test]
fn enumerations() {
    for v in 0u8..=255 {
        assert_eq!(
            MousePointer::from_u8(v).is_some(),
            run_check(Check::Variant(Variant::MousePointer), v as u32).is_none()
        );
        assert_eq!(
            SpecialEffect::from_u8(v).is_some(),
            run_check(Check::Variant(Variant::SpecialEffect), v as u32).is_none()
        );
        assert_eq!(
            PictureAlignment::from_u8(v).is_some(),
            run_check(Check::Variant(Variant::PictureAlignment), v as u32).is_none()
        );
        assert_eq!(
            PictureSizeMode::from_u8(v).is_some(),
            run_check(Check::Variant(Variant::PictureSizeMode), v as u32).is_none()
        );
        if let Some(p) = MousePointer::from_u8(v) {
            assert_eq!(p.to_u8(), v);
        }
    }
    assert_eq!(MousePointer::from_u8(99), Some(MousePointer::Custom));
    assert_eq!(MousePointer::from_u8(4), None);
    assert_eq!(SpecialEffect::from_u8(6), Some(SpecialEffect::Bump));
    assert_eq!(PictureAlignment::from_u8(2), Some(PictureAlignment::Center));
    assert_eq!(PictureSizeMode::from_u8(3), Some(PictureSizeMode::Zoom));
    assert_eq!(PictureSizeMode::from_u8(2), None);
    let cached = [
        (7, FormEmbeddedActiveXControlCached::Form),
        (12, FormEmbeddedActiveXControlCached::Image),
        (14, FormEmbeddedActiveXControlCached::Frame),
        (15, FormEmbeddedActiveXControlCached::MorphData),
        (16, FormEmbeddedActiveXControlCached::SpinButton),
        (17, FormEmbeddedActiveXControlCached::CommandButton),
        (18, FormEmbeddedActiveXControlCached::TabStrip),
        (21, FormEmbeddedActiveXControlCached::Label),
        (23, FormEmbeddedActiveXControlCached::TextBox),
        (24, FormEmbeddedActiveXControlCached::ListBox),
        (25, FormEmbeddedActiveXControlCached::ComboBox),
        (26, FormEmbeddedActiveXControlCached::CheckBox),
        (27, FormEmbeddedActiveXControlCached::OptionButton),
        (28, FormEmbeddedActiveXControlCached::ToggleButton),
        (47, FormEmbeddedActiveXControlCached::ScrollBar),
        (57, FormEmbeddedActiveXControlCached::MultiPage),
    ];
    for v in 0u16..100 {
        let expected = cached.iter().find(|(n, _)| *n == v).map(|(_, c)| *c);
        assert_eq!(FormEmbeddedActiveXControlCached::from_u16(v), expected);
    }
    assert_eq!(FormEmbeddedActiveXControlCached::CommandButton.to_u16(), 17);
}

#[test]
fn flag_sets() {
    assert_eq!(VarFlags::from_bits(0x1FFF), Some(VarFlags { bits: 0x1FFF }));
    assert_eq!(VarFlags::from_bits(0x2000), None);
    assert_eq!(VarFlags::empty().bits(), 0);
    assert!(VarFlags { bits: 0x14 }.contains(VarFlags::BINDABLE | VarFlags::DISPLAY_BIND));
    assert!(!VarFlags { bits: 0x14 }.contains(VarFlags::HIDDEN));
    assert_eq!(VarType::from_bits(VarType::BSTR | VarType::ARRAY), Some(VarType { bits: 0x2008 }));
    assert_eq!(VarType::from_bits(0x0040), None);
    assert_eq!(VarType::from_bits(0x8000), None);
    assert!(VarType { bits: 0x4003 }.contains(VarType::BYREF));
    assert_eq!(VarType { bits: VarType::EMPTY }.bits(), 0);
}

#[test]
fn fixed_block_follows_its_table() {
    let table = [
        Prop { bit: 0x1, width: 1, check: Check::Any, default: 7, field: Field::BorderStyle },
        Prop { bit: 0x2, width: 4, check: Check::Any, default: 8, field: Field::GroupCount },
        Prop { bit: 0x4, width: 2, check: Check::Placeholder, default: 0xFFFF, field: Field::Font },
    ];
    let input = [0x11, 0xEE, 0xEE, 0xEE, 0x22, 0, 0, 0, 0xFF, 0xFF, 0x33];
    let run = |mask: u32, input: &[u8]| {
        let mut ap = AlignedParser::new();
        let r = read_fixed_block(RecordKind::FormControl, &table, mask, input, 0, &mut ap);
        r.map(|(v, p)| (v, p, ap.cursor))
    };
    assert_eq!(run(0, &input), Ok((vec![7, 8, 0xFFFF], 0, 0)));
    assert_eq!(run(1, &input), Ok((vec![0x11, 8, 0xFFFF], 1, 1)));
    assert_eq!(run(3, &input), Ok((vec![0x11, 0x22, 0xFFFF], 8, 8)));
    assert_eq!(run(7, &input), Ok((vec![0x11, 0x22, 0xFFFF], 10, 10)));
    assert_eq!(run(5, &[0x11, 0xEE, 0xFF, 0xFF]), Ok((vec![0x11, 8, 0xFFFF], 4, 4)));
    // a mask bit that gates no entry changes nothing
    assert_eq!(run(0x13, &input), run(3, &input));
    let e = |kind, field, offset| {
        Err(DecodeError { kind, record: RecordKind::FormControl, field, offset })
    };
    assert_eq!(run(7, &input[..9]), e(ErrorKind::Truncated, Field::Font, 8));
    assert_eq!(run(3, &input[..7]), e(ErrorKind::Truncated, Field::GroupCount, 1));
    assert_eq!(run(3, &input[..2]), e(ErrorKind::Truncated, Field::GroupCount, 1));
    assert_eq!(run(1, &[]), e(ErrorKind::Truncated, Field::BorderStyle, 0));
    assert_eq!(
        run(5, &[0x11, 0xEE, 0xFE, 0xFF]),
        e(ErrorKind::PlaceholderMismatch, Field::Font, 2)
    );
}

#[test]
fn flag_sets_and_enumerations_are_read_strictly() {
    let input = [0x14, 0x00, 0x63, 0xEE, 0x00, 0x20, 0x00, 0x00];
    let mut ap = AlignedParser::new();
    assert_eq!(
        ap.bitfield(&input, 0, 2, |w| VarFlags::from_bits(w as u16)),
        Ok((VarFlags { bits: 0x14 }, 2))
    );
    assert_eq!(
        ap.variant(&input, 2, 1, |v| MousePointer::from_u8(v as u8)),
        Ok((MousePointer::Custom, 3))
    );
    assert_eq!(ap.cursor, 3);
    // one byte of padding, then a word with a bit that is not declared
    assert_eq!(
        ap.bitfield(&input, 3, 4, |w| VarFlags::from_bits(w as u16)),
        Err(ErrorKind::UnknownBits(0x2000))
    );
    assert_eq!(ap.cursor, 3);
    assert_eq!(
        ap.variant(&input, 3, 1, |v| PictureSizeMode::from_u8(v as u8)),
        Err(ErrorKind::UnknownEnum(0xEE))
    );
    assert_eq!(
        ap.bitfield(&input, 5, 4, |w| VarFlags::from_bits(w as u16)),
        Err(ErrorKind::Truncated)
    );
    assert_eq!(
        ap.variant(&input, 8, 1, |v| MousePointer::from_u8(v as u8)),
        Err(ErrorKind::Truncated)
    );
    assert_eq!(ap.cursor, 3);
    assert_eq!(
        Prop::new(2, 4, Check::Color, 5, Field::BackColor),
        Prop { bit: 2, width: 4, check: Check::Color, default: 5, field: Field::BackColor }
    );
}
