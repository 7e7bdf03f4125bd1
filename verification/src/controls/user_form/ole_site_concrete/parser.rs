//! Decoding of sites.
//!
//! The byte count in the header of a site is authoritative: the site is
//! decoded from exactly that many bytes, with a cursor of its own, so that
//! its padding does not depend on its neighbours.
use vstd::prelude::*;
use vstd::slice::slice_subrange;
use crate::common::parser::{
    decoded, decoded_view, le_value, read_as, read_as_view, read_header, rest_of, signed16,
    signed32, spec_header, to_i16, to_i32, AlignedParser,
};
use crate::common::props::{
    fixed_block, fixed_cursor, lemma_fixed_block_ok, prop_pos, props_wf, read_fixed_block,
    read_mask, read_padding, spec_mask, spec_padding, width_max, Check, Prop,
};
use crate::controls::user_form::ole_site_concrete::{
    Clsid, OleSiteConcrete, OleSiteConcreteModel, SiteFlags,
};
use crate::controls::user_form::stream::{ClsidCacheIndex, SitePropMask};
use crate::error::{DecodeError, ErrorKind, Field, RecordKind};
use crate::properties::parser::{read_position, spec_position};
use crate::properties::string::parser::{read_string, spec_string};
use crate::properties::string::stream::CountOfBytesWithCompressionFlag;
use crate::properties::Position;

verus! {

/// The fixed block of a site, in file order. A string has its length and
/// compression here and its text in the block that follows.
pub open spec fn site_props() -> Seq<Prop> {
    seq![
        Prop::new(SitePropMask::NAME, 4, Check::Any, 0, Field::Name),
        Prop::new(SitePropMask::TAG, 4, Check::Any, 0, Field::Tag),
        Prop::new(SitePropMask::ID, 4, Check::Any, 0, Field::Id),
        Prop::new(SitePropMask::HELP_CONTEXT_ID, 4, Check::Any, 0, Field::HelpContextId),
        Prop::new(SitePropMask::BIT_FLAGS, 4, Check::Bits(SiteFlags::ALL), 0x33, Field::BitFlags),
        Prop::new(SitePropMask::OBJECT_STREAM_SIZE, 4, Check::Any, 0, Field::ObjectStreamSize),
        Prop::new(SitePropMask::TAB_INDEX, 2, Check::Any, 0xFFFF, Field::TabIndex),
        Prop::new(SitePropMask::CLSID_CACHE_INDEX, 2, Check::Any, 0x7FFF, Field::ClsidCacheIndex),
        Prop::new(SitePropMask::GROUP_ID, 2, Check::Any, 0, Field::GroupId),
        Prop::new(SitePropMask::CONTROL_TIP_TEXT, 4, Check::Any, 0, Field::ControlTipText),
        Prop::new(SitePropMask::RUNTIME_LIC_KEY, 4, Check::Any, 0, Field::RuntimeLicKey),
        Prop::new(SitePropMask::CONTROL_SOURCE, 4, Check::Any, 0, Field::ControlSource),
        Prop::new(SitePropMask::ROW_SOURCE, 4, Check::Any, 0, Field::RowSource),
    ]
}

/// The table of a site is well formed.
pub proof fn lemma_site_props_wf()
    ensures
        props_wf(site_props()),
{
    assert(0x33u32 & !0x0004_233Fu32 == 0) by (bit_vector);
}

/// The table of [`site_props`].
pub fn site_table() -> (t: [Prop; 13])
    ensures
        t@ == site_props(),
        props_wf(t@),
{
    let t: [Prop; 13] = [
        Prop::new(SitePropMask::NAME, 4, Check::Any, 0, Field::Name),
        Prop::new(SitePropMask::TAG, 4, Check::Any, 0, Field::Tag),
        Prop::new(SitePropMask::ID, 4, Check::Any, 0, Field::Id),
        Prop::new(SitePropMask::HELP_CONTEXT_ID, 4, Check::Any, 0, Field::HelpContextId),
        Prop::new(SitePropMask::BIT_FLAGS, 4, Check::Bits(SiteFlags::ALL), 0x33, Field::BitFlags),
        Prop::new(SitePropMask::OBJECT_STREAM_SIZE, 4, Check::Any, 0, Field::ObjectStreamSize),
        Prop::new(SitePropMask::TAB_INDEX, 2, Check::Any, 0xFFFF, Field::TabIndex),
        Prop::new(SitePropMask::CLSID_CACHE_INDEX, 2, Check::Any, 0x7FFF, Field::ClsidCacheIndex),
        Prop::new(SitePropMask::GROUP_ID, 2, Check::Any, 0, Field::GroupId),
        Prop::new(SitePropMask::CONTROL_TIP_TEXT, 4, Check::Any, 0, Field::ControlTipText),
        Prop::new(SitePropMask::RUNTIME_LIC_KEY, 4, Check::Any, 0, Field::RuntimeLicKey),
        Prop::new(SitePropMask::CONTROL_SOURCE, 4, Check::Any, 0, Field::ControlSource),
        Prop::new(SitePropMask::ROW_SOURCE, 4, Check::Any, 0, Field::RowSource),
    ];
    assert(t@ =~= site_props());
    proof {
        lemma_site_props_wf();
    }
    t
}

/// A string of the extra data of `record`: stored at `pos` with the length
/// and compression `raw` when `stored`, else empty with no bytes taken.
pub open spec fn spec_opt_string(
    record: RecordKind,
    field: Field,
    input: Seq<u8>,
    pos: int,
    stored: bool,
    raw: u32,
) -> Result<(Seq<char>, int), DecodeError> {
    if !stored {
        Ok((Seq::empty(), pos))
    } else {
        match spec_string(input, pos, CountOfBytesWithCompressionFlag { bits: raw }) {
            Ok(r) => Ok(r),
            Err(kind) => Err(DecodeError::at(kind, record, field, pos)),
        }
    }
}

/// Reads a string of the extra data of `record` and counts its bytes on the cursor.
pub fn read_opt_string(
    record: RecordKind,
    field: Field,
    input: &[u8],
    pos: usize,
    stored: bool,
    raw: u32,
    ap: &mut AlignedParser,
) -> (r: Result<(String, usize), DecodeError>)
    requires
        old(ap).cursor <= pos <= input@.len(),
    ensures
        read_as_view(r, input@, spec_opt_string(record, field, input@, pos as int, stored, raw)),
        r matches Ok((_, p)) ==> final(ap).cursor <= p,
        r matches Err(e) ==> e.offset <= input@.len(),
{
    if !stored {
        return Ok((String::new(), pos));
    }
    let len = input.len();
    match read_string(input, pos, CountOfBytesWithCompressionFlag { bits: raw }) {
        Ok((s, next)) => {
            ap.inc(next - pos);
            Ok((s, next))
        },
        Err(kind) => Err(DecodeError { kind, record, field, offset: pos }),
    }
}

/// A position of the extra data of `record`: stored at `pos` when `stored`,
/// else `(0, 0)` with no bytes taken.
pub open spec fn spec_opt_position(
    record: RecordKind,
    field: Field,
    input: Seq<u8>,
    pos: int,
    stored: bool,
) -> Result<(Position, int), DecodeError> {
    if !stored {
        Ok((Position { left: 0, top: 0 }, pos))
    } else if pos + 8 > input.len() {
        Err(DecodeError::at(ErrorKind::Truncated, record, field, pos))
    } else {
        Ok((spec_position(input, pos), pos + 8))
    }
}

/// Reads a position of the extra data of `record` and counts its bytes on the cursor.
pub fn read_opt_position(
    record: RecordKind,
    field: Field,
    input: &[u8],
    pos: usize,
    stored: bool,
    ap: &mut AlignedParser,
) -> (r: Result<(Position, usize), DecodeError>)
    requires
        old(ap).cursor <= pos <= input@.len(),
    ensures
        read_as(r, input@, spec_opt_position(record, field, input@, pos as int, stored)),
        r matches Ok((_, p)) ==> final(ap).cursor <= p,
        r matches Err(e) ==> e.offset <= input@.len(),
{
    if !stored {
        return Ok((Position { left: 0, top: 0 }, pos));
    }
    let len = input.len();
    match read_position(input, pos) {
        Some(position) => {
            ap.inc(8);
            Ok((position, pos + 8))
        },
        None => Err(DecodeError { kind: ErrorKind::Truncated, record, field, offset: pos }),
    }
}

/// The group of a site: none for the stored id zero.
pub open spec fn group_of(raw: u32) -> Option<u16> {
    if raw as u16 == 0 {
        None
    } else {
        Some(raw as u16)
    }
}

/// The site that the raw values of its fixed block and the values of its
/// extra data make up.
pub open spec fn site_of(
    vals: Seq<u32>,
    name: Seq<char>,
    tag: Seq<char>,
    site_position: Position,
    control_tip_text: Seq<char>,
    runtime_lic_key: Seq<char>,
    control_source: Seq<char>,
    row_source: Seq<char>,
) -> OleSiteConcreteModel {
    OleSiteConcreteModel {
        id: signed32(vals[2]) as i32,
        help_context_id: signed32(vals[3]) as i32,
        bit_flags: SiteFlags { bits: vals[4] },
        object_stream_size: vals[5],
        tab_index: signed16(vals[6]) as i16,
        clsid_cache_index: (ClsidCacheIndex { bits: vals[7] as u16 }).spec_clsid(),
        group_id: group_of(vals[8]),
        name,
        tag,
        site_position,
        control_tip_text,
        runtime_lic_key,
        control_source,
        row_source,
    }
}

/// The extra data of a site at `pos`, in file order with nothing between the
/// fields: name, tag, position, tooltip, license key, control source and row
/// source, each only if its mask bit is set.
pub open spec fn spec_site_extra(body: Seq<u8>, pos: int, mask: u32, vals: Seq<u32>) -> Result<
    OleSiteConcreteModel,
    DecodeError,
> {
    let rec = RecordKind::OleSiteConcrete;
    match spec_opt_string(rec, Field::Name, body, pos, mask & SitePropMask::NAME != 0, vals[0]) {
        Err(e) => Err(e),
        Ok((name, at1)) => match spec_opt_string(
            rec,
            Field::Tag,
            body,
            at1,
            mask & SitePropMask::TAG != 0,
            vals[1],
        ) {
            Err(e) => Err(e),
            Ok((tag, at2)) => match spec_opt_position(
                rec,
                Field::SitePosition,
                body,
                at2,
                mask & SitePropMask::POSITION != 0,
            ) {
                Err(e) => Err(e),
                Ok((site_position, at3)) => match spec_opt_string(
                    rec,
                    Field::ControlTipText,
                    body,
                    at3,
                    mask & SitePropMask::CONTROL_TIP_TEXT != 0,
                    vals[9],
                ) {
                    Err(e) => Err(e),
                    Ok((control_tip_text, at4)) => match spec_opt_string(
                        rec,
                        Field::RuntimeLicKey,
                        body,
                        at4,
                        mask & SitePropMask::RUNTIME_LIC_KEY != 0,
                        vals[10],
                    ) {
                        Err(e) => Err(e),
                        Ok((runtime_lic_key, at5)) => match spec_opt_string(
                            rec,
                            Field::ControlSource,
                            body,
                            at5,
                            mask & SitePropMask::CONTROL_SOURCE != 0,
                            vals[11],
                        ) {
                            Err(e) => Err(e),
                            Ok((control_source, at6)) => match spec_opt_string(
                                rec,
                                Field::RowSource,
                                body,
                                at6,
                                mask & SitePropMask::ROW_SOURCE != 0,
                                vals[12],
                            ) {
                                Err(e) => Err(e),
                                Ok((row_source, _)) => Ok(
                                    site_of(
                                        vals,
                                        name,
                                        tag,
                                        site_position,
                                        control_tip_text,
                                        runtime_lic_key,
                                        control_source,
                                        row_source,
                                    ),
                                ),
                            },
                        },
                    },
                },
            },
        },
    }
}

/// The site that a body decodes to: the property mask, the fixed block of
/// [`site_props`], padding to four, and the extra data. Offsets count from the
/// start of the body.
pub open spec fn spec_site_body(body: Seq<u8>) -> Result<OleSiteConcreteModel, DecodeError> {
    let rec = RecordKind::OleSiteConcrete;
    let props = site_props();
    match spec_mask(rec, body, 0, SitePropMask::ALL) {
        Err(e) => Err(e),
        Ok(mask) => match fixed_block(rec, props, mask, body, 4, 4, 13) {
            Err(e) => Err(e),
            Ok(vals) => match spec_padding(
                rec,
                body,
                prop_pos(props, mask, 4, 4, 13),
                fixed_cursor(props, mask, 4, 13),
            ) {
                Err(e) => Err(e),
                Ok(q) => spec_site_extra(body, q, mask, vals),
            },
        },
    }
}

/// Reads the extra data of a site at `pos` and completes the site.
pub fn read_site_extra(body: &[u8], pos: usize, mask: u32, vals: &Vec<u32>, ap: &mut AlignedParser) -> (r:
    Result<OleSiteConcrete, DecodeError>)
    requires
        old(ap).cursor <= pos <= body@.len(),
        vals@.len() == 13,
        vals@[6] <= 0xFFFF,
    ensures
        match spec_site_extra(body@, pos as int, mask, vals@) {
            Ok(site) => r matches Ok(v) && v@ == site,
            Err(e) => r == Err::<OleSiteConcrete, DecodeError>(e),
        },
        r matches Err(e) ==> e.offset <= body@.len(),
{
    let record = RecordKind::OleSiteConcrete;
    let (name, q) = read_opt_string(
        record,
        Field::Name,
        body,
        pos,
        mask & SitePropMask::NAME != 0,
        vals[0],
        ap,
    )?;
    let (tag, q) = read_opt_string(
        record,
        Field::Tag,
        body,
        q,
        mask & SitePropMask::TAG != 0,
        vals[1],
        ap,
    )?;
    let (site_position, q) = read_opt_position(
        record,
        Field::SitePosition,
        body,
        q,
        mask & SitePropMask::POSITION != 0,
        ap,
    )?;
    let (control_tip_text, q) = read_opt_string(
        record,
        Field::ControlTipText,
        body,
        q,
        mask & SitePropMask::CONTROL_TIP_TEXT != 0,
        vals[9],
        ap,
    )?;
    let (runtime_lic_key, q) = read_opt_string(
        record,
        Field::RuntimeLicKey,
        body,
        q,
        mask & SitePropMask::RUNTIME_LIC_KEY != 0,
        vals[10],
        ap,
    )?;
    let (control_source, q) = read_opt_string(
        record,
        Field::ControlSource,
        body,
        q,
        mask & SitePropMask::CONTROL_SOURCE != 0,
        vals[11],
        ap,
    )?;
    let (row_source, _) = read_opt_string(
        record,
        Field::RowSource,
        body,
        q,
        mask & SitePropMask::ROW_SOURCE != 0,
        vals[12],
        ap,
    )?;
    let group: u16 = vals[8] as u16;
    Ok(
        OleSiteConcrete {
            id: to_i32(vals[2]),
            help_context_id: to_i32(vals[3]),
            bit_flags: SiteFlags { bits: vals[4] },
            object_stream_size: vals[5],
            tab_index: to_i16(vals[6]),
            clsid_cache_index: (ClsidCacheIndex { bits: vals[7] as u16 }).clsid(),
            group_id: if group == 0 {
                None
            } else {
                Some(group)
            },
            name,
            tag,
            site_position,
            control_tip_text,
            runtime_lic_key,
            control_source,
            row_source,
        },
    )
}

/// Decodes the body of a site: the bytes that follow its header.
pub fn read_site_body(body: &[u8]) -> (r: Result<OleSiteConcrete, DecodeError>)
    ensures
        match spec_site_body(body@) {
            Ok(site) => r matches Ok(v) && v@ == site,
            Err(e) => r == Err::<OleSiteConcrete, DecodeError>(e),
        },
        r matches Err(e) ==> e.offset <= body@.len(),
{
    let record = RecordKind::OleSiteConcrete;
    let len = body.len();
    let mut ap = AlignedParser::new();
    let mask = read_mask(record, body, 0, SitePropMask::ALL, &mut ap)?;
    let table = site_table();
    let (vals, q) = read_fixed_block(record, table.as_slice(), mask, body, 4, &mut ap)?;
    proof {
        lemma_fixed_block_ok(record, table@, mask, body@, 4, 4, 13);
        assert(vals@[6] <= width_max(table@[6].width as int));
    }
    let q = read_padding(record, body, q, &mut ap)?;
    read_site_extra(body, q, mask, &vals, &mut ap)
}

/// The site at `pos`: the header `00 00` with the byte count of the body,
/// then the body, which is decoded from exactly that many bytes. The site
/// takes the header and the whole body, whatever part of the body its fields
/// fill.
pub open spec fn spec_ole_site_concrete(input: Seq<u8>, pos: int) -> Result<
    (OleSiteConcreteModel, int),
    DecodeError,
> {
    let rec = RecordKind::OleSiteConcrete;
    match spec_header(rec, input, pos, 0x00, 0x00) {
        Err(e) => Err(e),
        Ok((count, p)) => if p + count > input.len() {
            Err(DecodeError::at(ErrorKind::Truncated, rec, Field::Data, p))
        } else {
            match spec_site_body(input.subrange(p, p + count)) {
                Ok(site) => Ok((site, p + count)),
                Err(e) => Err(e.spec_shifted(p)),
            }
        },
    }
}

/// Reads the site at `pos`.
pub fn read_ole_site_concrete(input: &[u8], pos: usize) -> (r: Result<(OleSiteConcrete, usize), DecodeError>)
    requires
        pos <= input@.len(),
    ensures
        read_as_view(r, input@, spec_ole_site_concrete(input@, pos as int)),
        r matches Err(e) ==> e.offset <= input@.len(),
{
    let record = RecordKind::OleSiteConcrete;
    let len = input.len();
    let (count, p) = read_header(record, input, pos, 0x00, 0x00)?;
    if len - p < count as usize {
        return Err(DecodeError { kind: ErrorKind::Truncated, record, field: Field::Data, offset: p });
    }
    let end = p + count as usize;
    match read_site_body(slice_subrange(input, p, end)) {
        Ok(site) => Ok((site, end)),
        Err(e) => Err(e.shifted(p)),
    }
}

/// The header of a site at the start of `input`.
pub open spec fn spec_parse_ole_site_concrete_header(input: Seq<u8>) -> Result<(u16, int), DecodeError> {
    spec_header(RecordKind::OleSiteConcrete, input, 0, 0x00, 0x00)
}

/// Decodes the header of a site and returns the byte count of its body.
pub fn parse_ole_site_concrete_header<'a>(input: &'a [u8]) -> (r: Result<(&'a [u8], u16), DecodeError>)
    ensures
        decoded(r, input@, spec_parse_ole_site_concrete_header(input@)),
{
    let (count, next) = read_header(RecordKind::OleSiteConcrete, input, 0, 0x00, 0x00)?;
    Ok((rest_of(input, next), count))
}

/// A site at the start of `input`.
pub open spec fn spec_parse_ole_site_concrete(input: Seq<u8>) -> Result<
    (OleSiteConcreteModel, int),
    DecodeError,
> {
    spec_ole_site_concrete(input, 0)
}

/// Decodes a site from the start of `input`.
pub fn parse_ole_site_concrete<'a>(input: &'a [u8]) -> (r: Result<
    (&'a [u8], OleSiteConcrete),
    DecodeError,
>)
    ensures
        decoded_view(r, input@, spec_parse_ole_site_concrete(input@)),
{
    let (site, next) = read_ole_site_concrete(input, 0)?;
    Ok((rest_of(input, next), site))
}

/// Strict rejection of reserved mask bits: a site whose property mask has a
/// bit that is not declared fails with `UnknownBits` of the mask.
pub proof fn lemma_site_rejects_unknown_mask_bits(body: Seq<u8>)
    requires
        body.len() >= 4,
        le_value(body, 0, 4) & !SitePropMask::ALL != 0,
    ensures
        spec_site_body(body) == Err::<OleSiteConcreteModel, DecodeError>(
            DecodeError::at(
                ErrorKind::UnknownBits(le_value(body, 0, 4)),
                RecordKind::OleSiteConcrete,
                Field::PropMask,
                0,
            ),
        ),
{
}

/// Default preservation in the extra data of a site: a string or the
/// position whose mask bit is clear has its file format default.
pub proof fn lemma_site_extra_defaults(body: Seq<u8>, pos: int, mask: u32, vals: Seq<u32>)
    requires
        spec_site_extra(body, pos, mask, vals) is Ok,
    ensures
        ({
            let site = spec_site_extra(body, pos, mask, vals)->Ok_0;
            &&& site == site_of(
                vals,
                site.name,
                site.tag,
                site.site_position,
                site.control_tip_text,
                site.runtime_lic_key,
                site.control_source,
                site.row_source,
            )
            &&& mask & SitePropMask::NAME == 0 ==> site.name == Seq::<char>::empty()
            &&& mask & SitePropMask::TAG == 0 ==> site.tag == Seq::<char>::empty()
            &&& mask & SitePropMask::POSITION == 0 ==> site.site_position == Position::new(0, 0)
            &&& mask & SitePropMask::CONTROL_TIP_TEXT == 0 ==> site.control_tip_text == Seq::<
                char,
            >::empty()
            &&& mask & SitePropMask::RUNTIME_LIC_KEY == 0 ==> site.runtime_lic_key == Seq::<
                char,
            >::empty()
            &&& mask & SitePropMask::CONTROL_SOURCE == 0 ==> site.control_source == Seq::<
                char,
            >::empty()
            &&& mask & SitePropMask::ROW_SOURCE == 0 ==> site.row_source == Seq::<char>::empty()
        }),
{
}

/// Default preservation for sites: a property whose mask bit is clear has
/// its file format default in the decoded site.
pub proof fn lemma_site_defaults(body: Seq<u8>)
    requires
        spec_site_body(body) is Ok,
    ensures
        ({
            let mask = le_value(body, 0, 4);
            let site = spec_site_body(body)->Ok_0;
            &&& mask & SitePropMask::NAME == 0 ==> site.name == Seq::<char>::empty()
            &&& mask & SitePropMask::TAG == 0 ==> site.tag == Seq::<char>::empty()
            &&& mask & SitePropMask::ID == 0 ==> site.id == 0
            &&& mask & SitePropMask::HELP_CONTEXT_ID == 0 ==> site.help_context_id == 0
            &&& mask & SitePropMask::BIT_FLAGS == 0 ==> site.bit_flags == (SiteFlags { bits: 0x33 })
            &&& mask & SitePropMask::OBJECT_STREAM_SIZE == 0 ==> site.object_stream_size == 0
            &&& mask & SitePropMask::TAB_INDEX == 0 ==> site.tab_index == -1
            &&& mask & SitePropMask::CLSID_CACHE_INDEX == 0 ==> site.clsid_cache_index
                == Clsid::Invalid
            &&& mask & SitePropMask::POSITION == 0 ==> site.site_position == Position::new(0, 0)
            &&& mask & SitePropMask::GROUP_ID == 0 ==> site.group_id.is_none()
            &&& mask & SitePropMask::CONTROL_TIP_TEXT == 0 ==> site.control_tip_text == Seq::<
                char,
            >::empty()
            &&& mask & SitePropMask::RUNTIME_LIC_KEY == 0 ==> site.runtime_lic_key == Seq::<
                char,
            >::empty()
            &&& mask & SitePropMask::CONTROL_SOURCE == 0 ==> site.control_source == Seq::<
                char,
            >::empty()
            &&& mask & SitePropMask::ROW_SOURCE == 0 ==> site.row_source == Seq::<char>::empty()
        }),
{
    let rec = RecordKind::OleSiteConcrete;
    let mask = le_value(body, 0, 4);
    let props = site_props();
    lemma_site_props_wf();
    let vals = fixed_block(rec, props, mask, body, 4, 4, 13)->Ok_0;
    lemma_fixed_block_ok(rec, props, mask, body, 4, 4, 13);
    let q = spec_padding(rec, body, prop_pos(props, mask, 4, 4, 13), fixed_cursor(props, mask, 4, 13))->Ok_0;
    lemma_site_extra_defaults(body, q, mask, vals);
    assert(props[2].bit == SitePropMask::ID && props[2].default == 0);
    assert(props[3].bit == SitePropMask::HELP_CONTEXT_ID && props[3].default == 0);
    assert(props[4].bit == SitePropMask::BIT_FLAGS && props[4].default == 0x33);
    assert(props[5].bit == SitePropMask::OBJECT_STREAM_SIZE && props[5].default == 0);
    assert(props[6].bit == SitePropMask::TAB_INDEX && props[6].default == 0xFFFF);
    assert(props[7].bit == SitePropMask::CLSID_CACHE_INDEX && props[7].default == 0x7FFF);
    assert(props[8].bit == SitePropMask::GROUP_ID && props[8].default == 0);
}

/// Site-body isolation: the decode of a site depends on nothing but its
/// header and the bytes of its body. Two inputs of one length that agree on
/// the four bytes of the header at `pos` and on the bytes of the body that
/// the header announces (as far as the input holds them) decode to the same
/// site with the same extent, or fail with the same error.
pub proof fn lemma_site_body_isolation(a: Seq<u8>, b: Seq<u8>, pos: int)
    requires
        0 <= pos,
        pos + 4 <= a.len() == b.len(),
        forall|i: int| pos <= i < pos + 4 ==> a[i] == b[i],
        forall|i: int|
            pos + 4 <= i < pos + 4 + (a[pos + 2] + 0x100 * a[pos + 3]) && i < a.len() ==> a[i] == b[i],
    ensures
        spec_ole_site_concrete(a, pos) == spec_ole_site_concrete(b, pos),
{
    let count = a[pos + 2] + 0x100 * a[pos + 3];
    assert(b[pos + 2] + 0x100 * b[pos + 3] == count);
    if pos + 4 + count <= a.len() && a[pos] == 0 && a[pos + 1] == 0 {
        assert(a.subrange(pos + 4, pos + 4 + count) =~= b.subrange(pos + 4, pos + 4 + count));
    }
}

} // verus!
