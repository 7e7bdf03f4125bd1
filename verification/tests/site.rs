use ms_oforms::controls::user_form::ole_site_concrete::parser::{
    parse_ole_site_concrete, parse_ole_site_concrete_header, read_site_body,
};
use ms_oforms::controls::user_form::ole_site_concrete::{Clsid, OleSiteConcrete, SiteFlags};
use ms_oforms::controls::user_form::stream::{ClsidCacheIndex, SitePropMask};
use ms_oforms::error::{DecodeError, ErrorKind, Field, RecordKind};
use ms_oforms::properties::Position;

fn site_err(kind: ErrorKind, field: Field, offset: usize) -> DecodeError {
    DecodeError { kind, record: RecordKind::OleSiteConcrete, field, offset }
}

fn default_site() -> OleSiteConcrete {
    OleSiteConcrete {
        id: 0,
        help_context_id: 0,
        bit_flags: SiteFlags {
            bits: SiteFlags::TAB_STOP | SiteFlags::VISIBLE | SiteFlags::STREAMED | SiteFlags::AUTO_SIZE,
        },
        object_stream_size: 0,
        tab_index: -1,
        clsid_cache_index: Clsid::Invalid,
        group_id: None,
        name: String::new(),
        tag: String::new(),
        site_position: Position::new(0, 0),
        control_tip_text: String::new(),
        runtime_lic_key: String::new(),
        control_source: String::new(),
        row_source: String::new(),
    }
}

/// The body of a site named "cmd1": a command button of 20 bytes at (100, 200).
fn cmd1_body() -> Vec<u8> {
    let mut body = Vec::new();
    let mask = SitePropMask::NAME
        | SitePropMask::OBJECT_STREAM_SIZE
        | SitePropMask::CLSID_CACHE_INDEX
        | SitePropMask::POSITION;
    body.extend_from_slice(&mask.to_le_bytes());
    body.extend_from_slice(&0x8000_0004u32.to_le_bytes());
    body.extend_from_slice(&20u32.to_le_bytes());
    body.extend_from_slice(&17u16.to_le_bytes());
    body.extend_from_slice(&[0, 0]);
    body.extend_from_slice(b"cmd1");
    body.extend_from_slice(&100i32.to_le_bytes());
    body.extend_from_slice(&200i32.to_le_bytes());
    body
}

fn with_header(body: &[u8]) -> Vec<u8> {
    let mut site = vec![0x00, 0x00];
    site.extend_from_slice(&(body.len() as u16).to_le_bytes());
    site.extend_from_slice(body);
    site
}

fn cmd1() -> OleSiteConcrete {
    OleSiteConcrete {
        object_stream_size: 20,
        clsid_cache_index: Clsid::Global(17),
        name: String::from("cmd1"),
        site_position: Position { left: 100, top: 200 },
        ..default_site()
    }
}

#[test]
fn one_ole_site() {
    let body = cmd1_body();
    assert_eq!(body.len(), 28);
    assert_eq!(read_site_body(&body), Ok(cmd1()));
    let mut bytes = with_header(&body);
    bytes.extend_from_slice(&[0xAB, 0xCD]);
    assert_eq!(parse_ole_site_concrete(&bytes), Ok((&[0xAB, 0xCD][..], cmd1())));
    assert_eq!(parse_ole_site_concrete_header(&bytes), Ok((&bytes[4..], 28)));
}

#[test]
fn site_without_properties_has_the_defaults() {
    assert_eq!(read_site_body(&[0, 0, 0, 0]), Ok(default_site()));
    assert_eq!(
        parse_ole_site_concrete(&[0, 0, 4, 0, 0, 0, 0, 0]),
        Ok((&[][..], default_site()))
    );
    assert_eq!(default_site().bit_flags.bits(), 0x33);
}

#[test]
fn site_with_every_property() {
    let mut body = Vec::new();
    body.extend_from_slice(&SitePropMask::ALL.to_le_bytes());
    body.extend_from_slice(&0x8000_0001u32.to_le_bytes()); // name
    body.extend_from_slice(&0x0000_0002u32.to_le_bytes()); // tag, UTF-16
    body.extend_from_slice(&(-5i32).to_le_bytes()); // id
    body.extend_from_slice(&7i32.to_le_bytes()); // help context id
    body.extend_from_slice(&0x0004_0102u32.to_le_bytes()); // bit flags
    body.extend_from_slice(&0x1_0000u32.to_le_bytes()); // object stream size
    body.extend_from_slice(&(-2i16).to_le_bytes()); // tab index
    body.extend_from_slice(&0x8003u16.to_le_bytes()); // class table entry 3
    body.extend_from_slice(&9u16.to_le_bytes()); // group
    body.extend_from_slice(&[0, 0]); // padding of the tooltip word
    body.extend_from_slice(&0x8000_0003u32.to_le_bytes()); // tooltip
    body.extend_from_slice(&0x8000_0000u32.to_le_bytes()); // license key
    body.extend_from_slice(&0x8000_0002u32.to_le_bytes()); // control source
    body.extend_from_slice(&0x8000_0001u32.to_le_bytes()); // row source
    assert_eq!(body.len() % 4, 0);
    body.extend_from_slice(b"n");
    body.extend_from_slice(&[0x74, 0x00]);
    body.extend_from_slice(&(-1i32).to_le_bytes());
    body.extend_from_slice(&i32::MIN.to_le_bytes());
    body.extend_from_slice(b"tip");
    body.extend_from_slice(b"A1");
    body.extend_from_slice(b"R");
    body.extend_from_slice(&[0xEE; 3]);
    assert_eq!(
        read_site_body(&body),
        Ok(OleSiteConcrete {
            id: -5,
            help_context_id: 7,
            bit_flags: SiteFlags {
                bits: SiteFlags::VISIBLE | SiteFlags::PRESERVE_HEIGHT | SiteFlags::PROMOTE_CONTROLS,
            },
            object_stream_size: 0x1_0000,
            tab_index: -2,
            clsid_cache_index: Clsid::ClassTable(3),
            group_id: Some(9),
            name: String::from("n"),
            tag: String::from("t"),
            site_position: Position { left: -1, top: i32::MIN },
            control_tip_text: String::from("tip"),
            runtime_lic_key: String::new(),
            control_source: String::from("A1"),
            row_source: String::from("R"),
        })
    );
}

#[test]
fn site_fields_sit_at_their_alignment() {
    // tab index (2 bytes) then tooltip word (4 bytes): two bytes of padding between them
    let mask = SitePropMask::TAB_INDEX | SitePropMask::CONTROL_TIP_TEXT;
    let mut body = Vec::new();
    body.extend_from_slice(&mask.to_le_bytes());
    body.extend_from_slice(&3i16.to_le_bytes());
    body.extend_from_slice(&[0xAA, 0xBB]);
    body.extend_from_slice(&0x8000_0002u32.to_le_bytes());
    body.extend_from_slice(b"ok");
    let site = read_site_body(&body).unwrap();
    assert_eq!(site.tab_index, 3);
    assert_eq!(site.control_tip_text, "ok");

    // tab index, class index, group: 6 bytes behind the mask, then 2 bytes of
    // padding in front of the extra data
    let mask = SitePropMask::TAB_INDEX
        | SitePropMask::CLSID_CACHE_INDEX
        | SitePropMask::GROUP_ID
        | SitePropMask::POSITION;
    let mut body = Vec::new();
    body.extend_from_slice(&mask.to_le_bytes());
    body.extend_from_slice(&1i16.to_le_bytes());
    body.extend_from_slice(&0x7FFFu16.to_le_bytes());
    body.extend_from_slice(&0u16.to_le_bytes());
    body.extend_from_slice(&[0x55, 0x55]);
    body.extend_from_slice(&10i32.to_le_bytes());
    body.extend_from_slice(&20i32.to_le_bytes());
    let site = read_site_body(&body).unwrap();
    assert_eq!(site.clsid_cache_index, Clsid::Invalid);
    assert_eq!(site.group_id, None);
    assert_eq!(site.site_position, Position::new(10, 20));
    body.truncate(11);
    assert_eq!(
        read_site_body(&body),
        Err(site_err(ErrorKind::Truncated, Field::Padding, 10))
    );
}

#[test]
fn extra_data_of_a_site_is_not_padded() {
    let mask = SitePropMask::NAME | SitePropMask::POSITION;
    let mut body = Vec::new();
    body.extend_from_slice(&mask.to_le_bytes());
    body.extend_from_slice(&0x8000_0003u32.to_le_bytes());
    body.extend_from_slice(b"abc");
    body.extend_from_slice(&1i32.to_le_bytes());
    body.extend_from_slice(&2i32.to_le_bytes());
    let site = read_site_body(&body).unwrap();
    assert_eq!(site.name, "abc");
    assert_eq!(site.site_position, Position { left: 1, top: 2 });
}

#[test]
fn site_rejects_reserved_mask_bits() {
    for bit in [0x400u32, 0x8000, 0x1_0000, 0x8000_0000] {
        let mut body = bit.to_le_bytes().to_vec();
        body.extend_from_slice(&[0; 64]);
        assert_eq!(
            read_site_body(&body),
            Err(site_err(ErrorKind::UnknownBits(bit), Field::PropMask, 0))
        );
        assert_eq!(
            parse_ole_site_concrete(&with_header(&body)),
            Err(site_err(ErrorKind::UnknownBits(bit), Field::PropMask, 4))
        );
    }
    assert_eq!(SitePropMask::from_bits(0x400), None);
    assert_eq!(
        SitePropMask::from_bits(0x7BFF),
        Some(SitePropMask { bits: SitePropMask::ALL })
    );
}

#[test]
fn site_rejects_unknown_flags() {
    let mut body = SitePropMask::BIT_FLAGS.to_le_bytes().to_vec();
    body.extend_from_slice(&0x40u32.to_le_bytes());
    assert_eq!(
        read_site_body(&body),
        Err(site_err(ErrorKind::UnknownBits(0x40), Field::BitFlags, 4))
    );
    assert_eq!(SiteFlags::from_bits(0x40), None);
    assert_eq!(SiteFlags::from_bits(0x33), Some(SiteFlags { bits: 0x33 }));
}

#[test]
fn site_header_is_checked() {
    assert_eq!(
        parse_ole_site_concrete(&[0x00]),
        Err(site_err(ErrorKind::Truncated, Field::Header, 0))
    );
    assert_eq!(
        parse_ole_site_concrete(&[0x00, 0x01, 4, 0, 0, 0, 0, 0]),
        Err(site_err(ErrorKind::BadMagic, Field::Header, 0))
    );
    assert_eq!(
        parse_ole_site_concrete(&[0x00, 0x00, 4]),
        Err(site_err(ErrorKind::Truncated, Field::Header, 2))
    );
    assert_eq!(
        parse_ole_site_concrete(&[0x00, 0x00, 5, 0, 0, 0, 0, 0]),
        Err(site_err(ErrorKind::Truncated, Field::Data, 4))
    );
}

#[test]
fn site_is_decoded_from_its_body_alone() {
    // the name claims 5 bytes, the body holds 4 of them: the byte behind the
    // body does not count
    let mut body = cmd1_body();
    body.truncate(20);
    body[4..8].copy_from_slice(&0x8000_0005u32.to_le_bytes());
    let mut bytes = with_header(&body);
    bytes.extend_from_slice(b"extra bytes behind the body");
    assert_eq!(
        parse_ole_site_concrete(&bytes),
        Err(site_err(ErrorKind::Truncated, Field::Name, 20))
    );
    // bytes of the body that no field fills are passed over
    let mut body = cmd1_body();
    body.extend_from_slice(&[0xFF; 5]);
    let mut bytes = with_header(&body);
    bytes.push(0x42);
    assert_eq!(parse_ole_site_concrete(&bytes), Ok((&[0x42u8][..], cmd1())));
}

#[test]
fn bytes_around_a_site_do_not_change_it() {
    let body = cmd1_body();
    let site = with_header(&body);
    let mut a = vec![0x11; 7];
    a.extend_from_slice(&site);
    a.extend_from_slice(&[0x22; 9]);
    let mut b = vec![0x99; 7];
    b.extend_from_slice(&site);
    b.extend_from_slice(&[0x00; 9]);
    let ra = parse_ole_site_concrete(&a[7..]).unwrap();
    let rb = parse_ole_site_concrete(&b[7..]).unwrap();
    assert_eq!(ra.1, rb.1);
    assert_eq!(ra.0.len(), rb.0.len());
    assert_eq!(ra.1, cmd1());
}

#[test]
fn class_cache_index() {
    let clsid = |bits: u16| ClsidCacheIndex::from_bits(bits).unwrap().clsid();
    assert_eq!(clsid(0x7FFF), Clsid::Invalid);
    assert_eq!(clsid(0x0000), Clsid::Global(0));
    assert_eq!(clsid(17), Clsid::Global(17));
    assert_eq!(clsid(0x7FFE), Clsid::Global(0x7FFE));
    assert_eq!(clsid(0x8000), Clsid::ClassTable(0));
    assert_eq!(clsid(0x8005), Clsid::ClassTable(5));
    assert_eq!(clsid(0xFFFF), Clsid::ClassTable(0x7FFF));
    assert_eq!(Clsid::from(ClsidCacheIndex { bits: 0x8001 }), Clsid::ClassTable(1));
}
