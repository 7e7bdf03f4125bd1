use ms_oforms::error::{DecodeError, ErrorKind, Field, RecordKind};
use ms_oforms::properties::string::parser::{parse_string, read_ascii, read_string};
use ms_oforms::properties::string::stream::CountOfBytesWithCompressionFlag;

fn lc(bits: u32) -> CountOfBytesWithCompressionFlag {
    CountOfBytesWithCompressionFlag::from_bits(bits).unwrap()
}

#[test]
fn length_and_compression_share_a_word() {
    let flag = lc(0x8000_0004);
    assert_eq!(flag.len(), 4);
    assert!(flag.compressed());
    assert_eq!(flag.bits(), 0x8000_0004);
    let flag = lc(0x0000_0006);
    assert_eq!(flag.len(), 6);
    assert!(!flag.compressed());
    let flag = lc(0x7FFF_FFFF);
    assert_eq!(flag.len(), 0x7FFF_FFFF);
    assert!(!flag.compressed());
    let flag = lc(0xFFFF_FFFF);
    assert_eq!(flag.len(), 0x7FFF_FFFF);
    assert!(flag.compressed());
    assert_eq!(CountOfBytesWithCompressionFlag::EMPTY().len(), 0);
    assert!(!CountOfBytesWithCompressionFlag::EMPTY().compressed());
}

#[test]
fn length_and_compression_round_trip() {
    for n in [0u32, 1, 2, 0x1234, 0x7FFF_FFFE, 0x7FFF_FFFF] {
        for c in [0u32, 1] {
            let word = c << 31 | n;
            let flag = lc(word);
            assert_eq!(flag.len(), n);
            assert_eq!(flag.compressed(), c == 1);
            assert_eq!((flag.compressed() as u32) << 31 | flag.len(), word);
        }
    }
}

#[test]
fn compressed_strings_have_one_byte_for_each_character() {
    assert_eq!(
        parse_string(lc(0x8000_0004), b"cmd1rest"),
        Ok((&b"rest"[..], String::from("cmd1")))
    );
    assert_eq!(
        parse_string(lc(0x8000_0003), &[0x63, 0xE9, 0xFF]),
        Ok((&[][..], String::from("c\u{e9}\u{ff}")))
    );
    assert_eq!(parse_string(lc(0x8000_0000), b"x"), Ok((&b"x"[..], String::new())));
}

#[test]
fn other_strings_are_utf16() {
    assert_eq!(
        parse_string(lc(4), &[0x68, 0x00, 0x69, 0x00, 0x21]),
        Ok((&[0x21u8][..], String::from("hi")))
    );
    assert_eq!(
        parse_string(lc(4), &[0xAC, 0x20, 0x3D, 0xD8]),
        Ok((&[][..], String::from("\u{20ac}\u{fffd}")))
    );
    assert_eq!(
        parse_string(lc(4), &[0x3D, 0xD8, 0x00, 0xDE]),
        Ok((&[][..], String::from("\u{1f600}")))
    );
    assert_eq!(
        parse_string(lc(4), &[0xFF, 0xFE, 0x41, 0x00]),
        Ok((&[][..], String::from("A")))
    );
    assert_eq!(parse_string(lc(0), &[]), Ok((&[][..], String::new())));
}

#[test]
fn string_needs_all_its_bytes() {
    let e = Err(DecodeError {
        kind: ErrorKind::Truncated,
        record: RecordKind::FmString,
        field: Field::Value,
        offset: 0,
    });
    assert_eq!(parse_string(lc(0x8000_0005), b"cmd1"), e);
    assert_eq!(parse_string(lc(2), &[0x41]), e);
    assert_eq!(parse_string(lc(0x7FFF_FFFF), &[0x41]), e);
}

#[test]
fn strings_are_read_in_place() {
    assert_eq!(
        read_string(b"..ab..", 2, lc(0x8000_0002)),
        Ok((String::from("ab"), 4))
    );
    assert_eq!(read_string(b"..ab", 2, lc(0x8000_0003)), Err(ErrorKind::Truncated));
    assert_eq!(read_ascii(b"Tahoma!", 0, 6), Some(String::from("Tahoma")));
    assert_eq!(read_ascii(&[0x41, 0x80], 0, 2), None);
    assert_eq!(read_ascii(&[0x41, 0x80], 0, 1), Some(String::from("A")));
}
