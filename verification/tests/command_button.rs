use ms_oforms::controls::command_button::{
    parse_command_button, parse_command_button_header, CommandButtonControl, CommandButtonPropMask,
};
use ms_oforms::error::{DecodeError, ErrorKind, Field, RecordKind};
use ms_oforms::properties::color::{OleColor, RgbColor};

fn err(kind: ErrorKind, field: Field, offset: usize) -> DecodeError {
    DecodeError { kind, record: RecordKind::CommandButton, field, offset }
}

#[test]
fn command_button_body() {
    let bytes = [
        0x00, 0x02, 0x08, 0x00, // header
        0x03, 0x00, 0x00, 0x00, // mask
        0x00, 0x00, 0x00, 0x00, // fore color
        0x0F, 0x00, 0x00, 0x80, // back color
    ];
    assert_eq!(
        parse_command_button(&bytes),
        Ok((
            &[][..],
            CommandButtonControl {
                fore_color: OleColor::Default(RgbColor::from_rgb(0, 0, 0)),
                back_color: OleColor::BTNFACE(),
            }
        ))
    );
    assert_eq!(parse_command_button_header(&bytes), Ok((&bytes[4..], 8)));
}

#[test]
fn command_button_defaults() {
    assert_eq!(
        parse_command_button(&[0x00, 0x02, 0x00, 0x00, 0x00, 0x00, 0x00, 0x00, 0x77]),
        Ok((
            &[0x77u8][..],
            CommandButtonControl { fore_color: OleColor::BTNTEXT(), back_color: OleColor::BTNFACE() }
        ))
    );
    let bytes = [0x00, 0x02, 0x04, 0x00, 0x02, 0x00, 0x00, 0x00, 0x01, 0x02, 0x03, 0x02];
    assert_eq!(
        parse_command_button(&bytes),
        Ok((
            &[][..],
            CommandButtonControl {
                fore_color: OleColor::BTNTEXT(),
                back_color: OleColor::RgbColor(RgbColor { blue: 1, green: 2, red: 3 }),
            }
        ))
    );
}

#[test]
fn command_button_takes_its_whole_body() {
    let mut bytes = vec![0x00, 0x02, 0x0A, 0x00, 0x01, 0x00, 0x00, 0x00];
    bytes.extend_from_slice(&0x8000_0008u32.to_le_bytes());
    bytes.extend_from_slice(&[1, 2, 3, 4, 5, 6, 0xAA]);
    assert_eq!(
        parse_command_button(&bytes),
        Ok((
            &[0xAAu8][..],
            CommandButtonControl { fore_color: OleColor::WINDOWTEXT(), back_color: OleColor::BTNFACE() }
        ))
    );
}

#[test]
fn command_button_errors() {
    assert_eq!(
        parse_command_button(&[0x00]),
        Err(err(ErrorKind::Truncated, Field::Header, 0))
    );
    assert_eq!(
        parse_command_button(&[0x00, 0x00, 0x08, 0x00, 0, 0, 0, 0]),
        Err(err(ErrorKind::BadMagic, Field::Header, 0))
    );
    assert_eq!(
        parse_command_button(&[0x00, 0x02, 0x08, 0x00, 0, 0]),
        Err(err(ErrorKind::Truncated, Field::PropMask, 4))
    );
    assert_eq!(
        parse_command_button(&[0x00, 0x02, 0x08, 0x00, 0x00, 0x08, 0x00, 0x00, 0, 0, 0, 0, 0, 0, 0, 0]),
        Err(err(ErrorKind::UnknownBits(0x800), Field::PropMask, 4))
    );
    assert_eq!(
        parse_command_button(&[0x00, 0x02, 0x08, 0x00, 0x03, 0, 0, 0, 0, 0, 0, 0]),
        Err(err(ErrorKind::Truncated, Field::Data, 8))
    );
    // the body ends before the back color, whatever follows it
    assert_eq!(
        parse_command_button(&[0x00, 0x02, 0x04, 0x00, 0x03, 0, 0, 0, 0, 0, 0, 0, 0x0F, 0, 0, 0x80]),
        Err(err(ErrorKind::Truncated, Field::BackColor, 12))
    );
    assert_eq!(
        parse_command_button(&[0x00, 0x02, 0x08, 0x00, 0x03, 0, 0, 0, 0, 0, 0, 0, 0x0F, 0, 0, 0x81]),
        Err(err(ErrorKind::UnknownEnum(0x81), Field::BackColor, 12))
    );
    assert_eq!(CommandButtonPropMask::from_bits(0x800), None);
    assert_eq!(CommandButtonPropMask::ALL, 0x7FF);
}
