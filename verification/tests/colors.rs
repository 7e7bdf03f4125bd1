use std::convert::TryFrom;

use ms_oforms::common::parser::AlignedParser;
use ms_oforms::error::{DecodeError, ErrorKind, Field, RecordKind};
use ms_oforms::properties::color::parser::parse_ole_color;
use ms_oforms::properties::color::{
    OleColor, RgbColor, SystemColor, SystemPaletteIndex,
};

#[test]
fn test_color() {
    assert_eq!(
        OleColor::try_from(u32::from_le_bytes([0, 0, 255, 0])),
        Ok(OleColor::Default(RgbColor {
            green: 0,
            blue: 0,
            red: 255,
        }))
    );
    assert_eq!(
        parse_ole_color(&[0, 0, 255, 0]),
        Ok((
            &[][..],
            OleColor::Default(RgbColor {
                green: 0,
                blue: 0,
                red: 255,
            })
        ))
    );
}

#[test]
fn test_system_colors() {
    assert_eq!(OleColor::from_u32(0x80000012).unwrap(), OleColor::BTNTEXT());
    assert_eq!(OleColor::from_u32(0x8000000f).unwrap(), OleColor::BTNFACE());
    assert_eq!(
        OleColor::from_u32(0xFFCC00).unwrap(),
        OleColor::Default(RgbColor {
            red: 0xFF,
            green: 0xCC,
            blue: 0,
        })
    );
}

#[test]
fn test_size() {
    assert_eq!(std::mem::size_of::<OleColor>(), 4);
}

#[test]
fn color_tags() {
    assert_eq!(
        OleColor::from_u32(0x0100_1234),
        Some(OleColor::PaletteEntry(0x1234))
    );
    assert_eq!(
        OleColor::from_u32(0x0211_2233),
        Some(OleColor::RgbColor(RgbColor::from_rgb(0x11, 0x22, 0x33)))
    );
    assert_eq!(
        OleColor::from_u32(0x0011_2233),
        Some(OleColor::Default(RgbColor::from_bgr(0x33, 0x22, 0x11)))
    );
    assert_eq!(
        OleColor::from_u32(0x8000_0005),
        Some(OleColor::SystemPalette(SystemPaletteIndex(5)))
    );
    assert_eq!(OleColor::from_u32(0x8000_0005), Some(OleColor::WINDOW()));
    assert_eq!(OleColor::from_u32(0x8000_0008), Some(OleColor::WINDOWTEXT()));
    assert_eq!(OleColor::from_u32(0x8000_0006), Some(OleColor::WINDOWFRAME()));
    assert_eq!(OleColor::from_u32(0x8000_0015), Some(OleColor::_3DDKSHADOW()));
    assert_eq!(OleColor::from_u32(0x8000_0014), Some(OleColor::_3DHIGHLIGHT()));
    assert_eq!(OleColor::_3DFACE(), OleColor::BTNFACE());
    assert_eq!(OleColor::from_u32(0x0300_0000), None);
    assert_eq!(OleColor::from_u32(0x7F00_0000), None);
    assert_eq!(OleColor::from_u32(0xFF00_0000), None);
    assert_eq!(OleColor::try_from(0x0300_0001u32), Err(0x0300_0001));
}

#[test]
fn color_with_unknown_tag_is_rejected() {
    assert_eq!(
        parse_ole_color(&[1, 2, 3, 0x7F, 9]),
        Err(DecodeError {
            kind: ErrorKind::UnknownEnum(0x7F),
            record: RecordKind::OleColor,
            field: Field::Value,
            offset: 0,
        })
    );
}

#[test]
fn color_needs_four_bytes() {
    assert_eq!(
        parse_ole_color(&[1, 2, 3]),
        Err(DecodeError {
            kind: ErrorKind::Truncated,
            record: RecordKind::OleColor,
            field: Field::Value,
            offset: 0,
        })
    );
    assert_eq!(
        parse_ole_color(&[0x0F, 0, 0, 0x80, 0xAA, 0xBB]),
        Ok((&[0xAA, 0xBB][..], OleColor::BTNFACE()))
    );
}

#[test]
fn system_colors_and_indices() {
    assert_eq!(SystemColor::ButtonFace.as_index(), SystemPaletteIndex(0x0F));
    assert_eq!(SystemColor::ButtonText.as_ole_color(), OleColor::BTNTEXT());
    assert_eq!(
        SystemPaletteIndex(0x18).as_system_color(),
        Some(SystemColor::InfoBackground)
    );
    assert_eq!(SystemPaletteIndex(0x19).as_system_color(), None);
    assert_eq!(SystemColor::from_u16(0), Some(SystemColor::ScrollBars));
    assert_eq!(SystemColor::from_u16(25), None);
    assert_eq!(SystemColor::_3DLight.to_u16(), 22);
    assert_eq!(
        SystemPaletteIndex::from(SystemColor::WindowFrame),
        SystemPaletteIndex(6)
    );
    assert_eq!(
        RgbColor::from(SystemColor::Highlight),
        RgbColor::from_rgb(0, 120, 215)
    );
    assert_eq!(
        RgbColor::from(SystemColor::InfoBackground),
        RgbColor { red: 255, green: 255, blue: 225 }
    );
    for v in 0u16..25 {
        let c = SystemColor::from_u16(v).unwrap();
        assert_eq!(c.to_u16(), v);
    }
}

#[test]
fn colors_are_read_at_their_alignment() {
    let input = [0xEE, 0xEE, 0x0F, 0x00, 0x00, 0x80, 0x00, 0x00, 0x00, 0x09];
    let mut ap = AlignedParser { cursor: 2 };
    assert_eq!(ap.ole_color(&input, 0), Ok((OleColor::BTNFACE(), 6)));
    assert_eq!(ap.cursor, 8);
    assert_eq!(ap.ole_color(&input, 6), Err(ErrorKind::UnknownEnum(9)));
    assert_eq!(ap.cursor, 8);
    assert_eq!(ap.ole_color(&input, 7), Err(ErrorKind::Truncated));
    assert_eq!(ap.cursor, 8);
}
