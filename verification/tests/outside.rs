use ms_oforms::common::{
    parse_guid, Guid, CLSID_DT_DDSFORM_21_FONT_NEW, CLSID_STD_FONT, CLSID_STD_PICTURE,
    CLSID_TEXT_PROPS, IID_IDISPATCH,
};
use ms_oforms::properties::string::parse_string;
use ms_oforms::properties::string::stream::CountOfBytesWithCompressionFlag;
use uuid::Uuid;

fn to_uuid(g: Guid) -> Uuid {
    Uuid::from_fields(g.data1, g.data2, g.data3, &g.data4.to_be_bytes())
}

#[test]
fn well_known_guids_read_as_they_are_written() {
    let cases = [
        (CLSID_STD_FONT(), "0be35203-8f91-11ce-9de3-00aa004bb851"),
        (CLSID_TEXT_PROPS(), "afc20920-da4e-11ce-b943-00aa006887b4"),
        (CLSID_STD_PICTURE(), "0be35204-8f91-11ce-9de3-00aa004bb851"),
        (CLSID_DT_DDSFORM_21_FONT_NEW(), "105b80de-95f1-11d0-b0a0-00aa00bdcb5c"),
        (IID_IDISPATCH(), "00020400-0000-0000-c000-000000000046"),
        (Guid::nil(), "00000000-0000-0000-0000-000000000000"),
    ];
    for (guid, text) in cases {
        assert_eq!(to_uuid(guid), Uuid::parse_str(text).unwrap());
        assert_eq!(to_uuid(guid).to_string(), text);
    }
    assert_eq!(to_uuid(Guid::nil()), Uuid::nil());
}

#[test]
fn guid_fields_are_those_of_a_uuid() {
    let bytes: Vec<u8> = (1u8..=16).collect();
    let (_, guid) = parse_guid(&bytes).unwrap();
    let mut d4 = [0u8; 8];
    d4.copy_from_slice(&bytes[8..]);
    let expected = Uuid::from_fields(0x0403_0201, 0x0605, 0x0807, &d4);
    assert_eq!(to_uuid(guid), expected);
    assert_eq!(to_uuid(guid).as_bytes(), &[4, 3, 2, 1, 6, 5, 8, 7, 9, 10, 11, 12, 13, 14, 15, 16]);
}

#[test]
fn strings_are_those_of_the_decoders() {
    let compressed = |n: usize| CountOfBytesWithCompressionFlag { bits: 0x8000_0000 | n as u32 };
    let plain = |n: usize| CountOfBytesWithCompressionFlag { bits: n as u32 };
    let all: Vec<u8> = (0u8..=255).collect();
    let (rest, text) = parse_string(compressed(256), &all).unwrap();
    assert!(rest.is_empty());
    assert_eq!(text, encoding_rs::mem::decode_latin1(&all));
    assert_eq!(text.chars().count(), 256);
    assert!(text.chars().enumerate().all(|(i, c)| c as usize == i));
    assert_ne!(text.as_bytes(), &all[..]);

    let (_, text) = parse_string(plain(256), &all).unwrap();
    assert_eq!(text, encoding_rs::UTF_16LE.decode(&all).0);
    assert_eq!(text.chars().next(), Some('\u{100}'));
    assert_ne!(text.as_bytes(), &all[..]);
    // an odd length: the last byte is half a code unit
    let (_, text) = parse_string(plain(3), &[0x41, 0x00, 0x42]).unwrap();
    assert_eq!(text, "A\u{fffd}");
    // a byte order mark of UTF-8 in front switches the decoder
    let (_, text) = parse_string(plain(5), &[0xEF, 0xBB, 0xBF, 0x68, 0x69]).unwrap();
    assert_eq!(text, "hi");
}
