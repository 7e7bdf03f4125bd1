//! Decoding of the form stream.
use vstd::prelude::*;
use vstd::slice::slice_subrange;
use crate::common::parser::{
    decoded, decoded_view, le_u16, le_u32, le_u8, le_value, read_as, read_as_view, read_guid,
    read_header, rest_of, spec_guid, spec_header, AlignedParser,
};
use crate::common::props::{
    check_error, check_ok, fixed_block, fixed_cursor, lemma_fixed_block_ok,
    lemma_fixed_block_rejects, present, prop_at, prop_pos, props_wf, read_fixed_block, read_mask,
    read_padding, spec_mask, spec_padding, variant_known, width_max, Check, Prop, Variant,
};
use crate::common::{Guid, VarFlags, VarType, IID_IDISPATCH};
use crate::controls::user_form::class_table::{ClsTableFlags, SiteClassInfo};
use crate::controls::user_form::ole_site_concrete::parser::{
    read_ole_site_concrete, read_opt_position, read_opt_string, spec_ole_site_concrete,
    spec_opt_position, spec_opt_string,
};
use crate::controls::user_form::stream::{
    ClassInfoPropMask, FormPropMask, SiteDepthAndType, SiteType,
};
use crate::controls::user_form::{
    sites_view, BorderStyle, Cycle, FormControl, FormControlModel, FormFlags, FormScrollBarFlags,
    Site, SiteKind, SiteKindModel, SiteModel,
};
use crate::error::{DecodeError, ErrorKind, Field, RecordKind};
use crate::properties::color::OleColor;
use crate::properties::font::parser::{read_guid_and_font, spec_guid_and_font};
use crate::properties::font::{GuidAndFont, GuidAndFontModel};
use crate::properties::parser::{read_size, spec_size};
use crate::properties::picture::{GuidAndPicture, GuidAndPictureModel};
use crate::properties::{
    MousePointer, PictureAlignment, PictureSizeMode, Position, Size, SpecialEffect,
};

verus! {

/// The fixed block of a class table entry, in file order. The class flags bit
/// gates two fields.
pub open spec fn class_info_props() -> Seq<Prop> {
    seq![
        Prop::new(ClassInfoPropMask::CLASS_FLAGS, 2, Check::Bits(ClsTableFlags::ALL as u32), 0, Field::ClassTableFlags),
        Prop::new(ClassInfoPropMask::CLASS_FLAGS, 2, Check::Bits(VarFlags::ALL as u32), 0, Field::VarFlags),
        Prop::new(ClassInfoPropMask::COUNT_OF_METHODS, 4, Check::Any, 0, Field::CountOfMethods),
        Prop::new(ClassInfoPropMask::DISPID_BIND, 4, Check::Any, 0xFFFF_FFFF, Field::DispidBind),
        Prop::new(ClassInfoPropMask::GET_BIND_INDEX, 2, Check::Any, 0, Field::GetBindIndex),
        Prop::new(ClassInfoPropMask::PUT_BIND_INDEX, 2, Check::Any, 0, Field::PutBindIndex),
        Prop::new(ClassInfoPropMask::BIND_TYPE, 2, Check::Bits(VarType::ALL as u32), 0, Field::BindType),
        Prop::new(ClassInfoPropMask::GET_VALUE_INDEX, 2, Check::Any, 0, Field::GetValueIndex),
        Prop::new(ClassInfoPropMask::PUT_VALUE_INDEX, 2, Check::Any, 0, Field::PutValueIndex),
        Prop::new(ClassInfoPropMask::VALUE_TYPE, 2, Check::Bits(VarType::ALL as u32), 0, Field::ValueType),
        Prop::new(ClassInfoPropMask::DISPID_ROWSET, 4, Check::Any, 0xFFFF_FFFF, Field::DispidRowset),
        Prop::new(ClassInfoPropMask::SET_ROWSET, 2, Check::Any, 0, Field::SetRowset),
    ]
}

/// The table of a class table entry is well formed.
pub proof fn lemma_class_info_props_wf()
    ensures
        props_wf(class_info_props()),
{
    assert(0u32 & !(0x0007u16 as u32) == 0 && 0u32 & !(0x1FFFu16 as u32) == 0 && 0u32 & !(
    0x603Fu16 as u32) == 0) by (bit_vector);
}

/// The table of [`class_info_props`].
pub fn class_info_table() -> (t: [Prop; 12])
    ensures
        t@ == class_info_props(),
        props_wf(t@),
{
    let t: [Prop; 12] = [
        Prop::new(ClassInfoPropMask::CLASS_FLAGS, 2, Check::Bits(ClsTableFlags::ALL as u32), 0, Field::ClassTableFlags),
        Prop::new(ClassInfoPropMask::CLASS_FLAGS, 2, Check::Bits(VarFlags::ALL as u32), 0, Field::VarFlags),
        Prop::new(ClassInfoPropMask::COUNT_OF_METHODS, 4, Check::Any, 0, Field::CountOfMethods),
        Prop::new(ClassInfoPropMask::DISPID_BIND, 4, Check::Any, 0xFFFF_FFFF, Field::DispidBind),
        Prop::new(ClassInfoPropMask::GET_BIND_INDEX, 2, Check::Any, 0, Field::GetBindIndex),
        Prop::new(ClassInfoPropMask::PUT_BIND_INDEX, 2, Check::Any, 0, Field::PutBindIndex),
        Prop::new(ClassInfoPropMask::BIND_TYPE, 2, Check::Bits(VarType::ALL as u32), 0, Field::BindType),
        Prop::new(ClassInfoPropMask::GET_VALUE_INDEX, 2, Check::Any, 0, Field::GetValueIndex),
        Prop::new(ClassInfoPropMask::PUT_VALUE_INDEX, 2, Check::Any, 0, Field::PutValueIndex),
        Prop::new(ClassInfoPropMask::VALUE_TYPE, 2, Check::Bits(VarType::ALL as u32), 0, Field::ValueType),
        Prop::new(ClassInfoPropMask::DISPID_ROWSET, 4, Check::Any, 0xFFFF_FFFF, Field::DispidRowset),
        Prop::new(ClassInfoPropMask::SET_ROWSET, 2, Check::Any, 0, Field::SetRowset),
    ];
    assert(t@ =~= class_info_props());
    proof {
        lemma_class_info_props_wf();
    }
    t
}

/// The class table entry that the raw values of its fixed block and its
/// three GUIDs make up.
pub open spec fn class_info_of(vals: Seq<u32>, cls_id: Guid, disp_event: Guid, default_proc: Guid) -> SiteClassInfo {
    SiteClassInfo {
        class_table_flags: ClsTableFlags { bits: vals[0] as u16 },
        var_flags: VarFlags { bits: vals[1] as u16 },
        count_of_methods: vals[2],
        dispid_bind: vals[3],
        get_bind_index: vals[4] as u16,
        put_bind_index: vals[5] as u16,
        bind_type: VarType { bits: vals[6] as u16 },
        get_value_index: vals[7] as u16,
        put_value_index: vals[8] as u16,
        value_type: VarType { bits: vals[9] as u16 },
        dispid_rowset: vals[10],
        set_rowset: vals[11] as u16,
        cls_id,
        disp_event,
        default_proc,
    }
}

/// A GUID of the extra data of `record`: stored at `pos` when `stored`, else
/// the default with no bytes taken.
pub open spec fn spec_opt_guid(
    record: RecordKind,
    field: Field,
    input: Seq<u8>,
    pos: int,
    stored: bool,
    default: Guid,
) -> Result<(Guid, int), DecodeError> {
    if !stored {
        Ok((default, pos))
    } else if pos + 16 > input.len() {
        Err(DecodeError::at(ErrorKind::Truncated, record, field, pos))
    } else {
        Ok((spec_guid(input, pos), pos + 16))
    }
}

/// Reads a GUID of the extra data of `record`.
pub fn read_opt_guid(
    record: RecordKind,
    field: Field,
    input: &[u8],
    pos: usize,
    stored: bool,
    default: Guid,
) -> (r: Result<(Guid, usize), DecodeError>)
    requires
        pos <= input@.len(),
    ensures
        read_as(r, input@, spec_opt_guid(record, field, input@, pos as int, stored, default)),
        r matches Err(e) ==> e.offset <= input@.len(),
{
    if !stored {
        return Ok((default, pos));
    }
    let len = input.len();
    match read_guid(input, pos) {
        Some(g) => Ok((g, pos + 16)),
        None => Err(DecodeError { kind: ErrorKind::Truncated, record, field, offset: pos }),
    }
}

/// The three GUIDs of a class table entry at `pos`, gated by `mask`, and the
/// entry that they complete.
pub open spec fn spec_class_info_guids(input: Seq<u8>, pos: int, mask: u32, vals: Seq<u32>) -> Result<
    (SiteClassInfo, int),
    DecodeError,
> {
    let rec = RecordKind::SiteClassInfo;
    match spec_opt_guid(
        rec,
        Field::ClsId,
        input,
        pos,
        mask & ClassInfoPropMask::CLS_ID != 0,
        Guid::nil(),
    ) {
        Err(e) => Err(e),
        Ok((cls_id, at1)) => match spec_opt_guid(
            rec,
            Field::DispEvent,
            input,
            at1,
            mask & ClassInfoPropMask::DISP_EVENT != 0,
            IID_IDISPATCH(),
        ) {
            Err(e) => Err(e),
            Ok((disp_event, at2)) => match spec_opt_guid(
                rec,
                Field::DefaultProc,
                input,
                at2,
                mask & ClassInfoPropMask::DEFAULT_PROC != 0,
                IID_IDISPATCH(),
            ) {
                Err(e) => Err(e),
                Ok((default_proc, at3)) => Ok(
                    (class_info_of(vals, cls_id, disp_event, default_proc), at3),
                ),
            },
        },
    }
}

/// The class table entry that a body decodes to: the property mask, the
/// fixed block of [`class_info_props`], padding to four, and the GUIDs of the
/// class, the source interface and the default interface. Offsets count from
/// the start of the body.
pub open spec fn spec_class_info_body(body: Seq<u8>) -> Result<SiteClassInfo, DecodeError> {
    let rec = RecordKind::SiteClassInfo;
    let props = class_info_props();
    match spec_mask(rec, body, 0, ClassInfoPropMask::ALL) {
        Err(e) => Err(e),
        Ok(mask) => match fixed_block(rec, props, mask, body, 4, 4, 12) {
            Err(e) => Err(e),
            Ok(vals) => match spec_padding(
                rec,
                body,
                prop_pos(props, mask, 4, 4, 12),
                fixed_cursor(props, mask, 4, 12),
            ) {
                Err(e) => Err(e),
                Ok(q) => match spec_class_info_guids(body, q, mask, vals) {
                    Err(e) => Err(e),
                    Ok((info, _)) => Ok(info),
                },
            },
        },
    }
}

/// Decodes the body of a class table entry: the bytes that follow its header.
pub fn read_class_info_body(body: &[u8]) -> (r: Result<SiteClassInfo, DecodeError>)
    ensures
        r == spec_class_info_body(body@),
        r matches Err(e) ==> e.offset <= body@.len(),
{
    let record = RecordKind::SiteClassInfo;
    let len = body.len();
    let mut ap = AlignedParser::new();
    let mask = read_mask(record, body, 0, ClassInfoPropMask::ALL, &mut ap)?;
    let table = class_info_table();
    let (vals, q) = read_fixed_block(record, table.as_slice(), mask, body, 4, &mut ap)?;
    proof {
        lemma_fixed_block_ok(record, table@, mask, body@, 4, 4, 12);
    }
    let q = read_padding(record, body, q, &mut ap)?;
    let (cls_id, q) = read_opt_guid(
        record,
        Field::ClsId,
        body,
        q,
        mask & ClassInfoPropMask::CLS_ID != 0,
        Guid::nil(),
    )?;
    let (disp_event, q) = read_opt_guid(
        record,
        Field::DispEvent,
        body,
        q,
        mask & ClassInfoPropMask::DISP_EVENT != 0,
        IID_IDISPATCH(),
    )?;
    let (default_proc, _) = read_opt_guid(
        record,
        Field::DefaultProc,
        body,
        q,
        mask & ClassInfoPropMask::DEFAULT_PROC != 0,
        IID_IDISPATCH(),
    )?;
    Ok(
        SiteClassInfo {
            class_table_flags: ClsTableFlags { bits: vals[0] as u16 },
            var_flags: VarFlags { bits: vals[1] as u16 },
            count_of_methods: vals[2],
            dispid_bind: vals[3],
            get_bind_index: vals[4] as u16,
            put_bind_index: vals[5] as u16,
            bind_type: VarType { bits: vals[6] as u16 },
            get_value_index: vals[7] as u16,
            put_value_index: vals[8] as u16,
            value_type: VarType { bits: vals[9] as u16 },
            dispid_rowset: vals[10],
            set_rowset: vals[11] as u16,
            cls_id,
            disp_event,
            default_proc,
        },
    )
}

/// The class table entry at `pos`: the header `00 00` with the byte count of
/// the body, then the body, which is decoded from exactly that many bytes
/// with a cursor of its own. The entry takes the header and the whole body,
/// whatever part of the body its fields fill.
pub open spec fn spec_site_class_info(input: Seq<u8>, pos: int) -> Result<
    (SiteClassInfo, int),
    DecodeError,
> {
    let rec = RecordKind::SiteClassInfo;
    match spec_header(rec, input, pos, 0x00, 0x00) {
        Err(e) => Err(e),
        Ok((count, p)) => if p + count > input.len() {
            Err(DecodeError::at(ErrorKind::Truncated, rec, Field::Data, p))
        } else {
            match spec_class_info_body(input.subrange(p, p + count)) {
                Ok(info) => Ok((info, p + count)),
                Err(e) => Err(e.spec_shifted(p)),
            }
        },
    }
}

/// Reads the class table entry at `pos`.
pub fn read_site_class_info(input: &[u8], pos: usize) -> (r: Result<(SiteClassInfo, usize), DecodeError>)
    requires
        pos <= input@.len(),
    ensures
        read_as(r, input@, spec_site_class_info(input@, pos as int)),
        r matches Err(e) ==> e.offset <= input@.len(),
{
    let record = RecordKind::SiteClassInfo;
    let len = input.len();
    let (count, p) = read_header(record, input, pos, 0x00, 0x00)?;
    if len - p < count as usize {
        return Err(DecodeError { kind: ErrorKind::Truncated, record, field: Field::Data, offset: p });
    }
    let end = p + count as usize;
    match read_class_info_body(slice_subrange(input, p, end)) {
        Ok(info) => Ok((info, end)),
        Err(e) => Err(e.shifted(p)),
    }
}

/// The header of a class table entry at the start of `input`.
pub open spec fn spec_parse_site_class_info_header(input: Seq<u8>) -> Result<(u16, int), DecodeError> {
    spec_header(RecordKind::SiteClassInfo, input, 0, 0x00, 0x00)
}

/// Decodes the header of a class table entry and returns its byte count.
pub fn parse_site_class_info_header<'a>(input: &'a [u8]) -> (r: Result<(&'a [u8], u16), DecodeError>)
    ensures
        decoded(r, input@, spec_parse_site_class_info_header(input@)),
{
    let (count, next) = read_header(RecordKind::SiteClassInfo, input, 0, 0x00, 0x00)?;
    Ok((rest_of(input, next), count))
}

/// A class table entry at the start of `input`.
pub open spec fn spec_parse_site_class_info(input: Seq<u8>) -> Result<(SiteClassInfo, int), DecodeError> {
    spec_site_class_info(input, 0)
}

/// Decodes a class table entry from the start of `input`.
pub fn parse_site_class_info<'a>(input: &'a [u8]) -> (r: Result<(&'a [u8], SiteClassInfo), DecodeError>)
    ensures
        decoded(r, input@, spec_parse_site_class_info(input@)),
{
    let (info, next) = read_site_class_info(input, 0)?;
    Ok((rest_of(input, next), info))
}

/// The class table entries that follow one another from `pos`: `n` of them,
/// behind the `acc` that were read before.
pub open spec fn spec_class_infos(input: Seq<u8>, pos: int, n: int, acc: Seq<SiteClassInfo>) -> Result<
    (Seq<SiteClassInfo>, int),
    DecodeError,
>
    decreases n,
{
    if n <= 0 {
        Ok((acc, pos))
    } else {
        match spec_site_class_info(input, pos) {
            Err(e) => Err(e),
            Ok((info, next)) => spec_class_infos(input, next, n - 1, acc.push(info)),
        }
    }
}

/// Reads `n` class table entries from `pos`.
pub fn read_class_infos(input: &[u8], pos: usize, n: u16) -> (r: Result<
    (Vec<SiteClassInfo>, usize),
    DecodeError,
>)
    requires
        pos <= input@.len(),
    ensures
        read_as_view(r, input@, spec_class_infos(input@, pos as int, n as int, Seq::empty())),
{
    let mut out: Vec<SiteClassInfo> = Vec::new();
    let mut at: usize = pos;
    let mut i: u16 = 0;
    while i < n
        invariant
            i <= n,
            at <= input@.len(),
            spec_class_infos(input@, pos as int, n as int, Seq::empty()) == spec_class_infos(
                input@,
                at as int,
                n - i,
                out@,
            ),
        decreases n - i,
    {
        let (info, next) = read_site_class_info(input, at)?;
        out.push(info);
        at = next;
        i = i + 1;
    }
    Ok((out, at))
}

/// One entry of the packed site list at `pos`: a depth byte and a byte that
/// is the type of one site or, with its high bit set, the count of sites of
/// the type in the byte that follows. Yields the depth and type, the count of
/// sites that the entry stands for, and the size of the entry.
pub open spec fn spec_site_run(input: Seq<u8>, pos: int) -> Result<
    (SiteDepthAndType, int, int),
    DecodeError,
> {
    let rec = RecordKind::SiteDepthsAndTypes;
    let depth = input[pos];
    let b = input[pos + 1];
    if pos + 1 > input.len() {
        Err(DecodeError::at(ErrorKind::Truncated, rec, Field::Depth, pos))
    } else if pos + 2 > input.len() {
        Err(DecodeError::at(ErrorKind::Truncated, rec, Field::TypeOrCount, pos + 1))
    } else if b >= 0x80 {
        if pos + 3 > input.len() {
            Err(DecodeError::at(ErrorKind::Truncated, rec, Field::SiteType, pos + 2))
        } else {
            match SiteType::spec_from_u8(input[pos + 2]) {
                None => Err(
                    DecodeError::at(
                        ErrorKind::UnknownEnum(input[pos + 2] as u32),
                        rec,
                        Field::SiteType,
                        pos + 2,
                    ),
                ),
                Some(site_type) => Ok((SiteDepthAndType { depth, site_type }, b - 0x80, 3)),
            }
        }
    } else {
        match SiteType::spec_from_u8(b) {
            None => Err(
                DecodeError::at(ErrorKind::UnknownEnum(b as u32), rec, Field::TypeOrCount, pos + 1),
            ),
            Some(site_type) => Ok((SiteDepthAndType { depth, site_type }, 1, 2)),
        }
    }
}

/// Reads one entry of the packed site list.
pub fn read_site_run(input: &[u8], pos: usize) -> (r: Result<(SiteDepthAndType, u8, usize), DecodeError>)
    requires
        pos <= input@.len(),
    ensures
        match spec_site_run(input@, pos as int) {
            Ok((entry, count, size)) => r == Ok::<(SiteDepthAndType, u8, usize), DecodeError>(
                (entry, count as u8, size as usize),
            ) && 0 <= count < 0x80 && (size == 2 || size == 3) && pos + size <= input@.len(),
            Err(e) => r == Err::<(SiteDepthAndType, u8, usize), DecodeError>(e),
        },
        r matches Err(e) ==> e.offset <= input@.len(),
{
    let record = RecordKind::SiteDepthsAndTypes;
    let len = input.len();
    let depth = match le_u8(input, pos) {
        Some(d) => d,
        None => {
            return Err(DecodeError { kind: ErrorKind::Truncated, record, field: Field::Depth, offset: pos });
        },
    };
    let b = match le_u8(input, pos + 1) {
        Some(b) => b,
        None => {
            return Err(
                DecodeError {
                    kind: ErrorKind::Truncated,
                    record,
                    field: Field::TypeOrCount,
                    offset: pos + 1,
                },
            );
        },
    };
    if b >= 0x80 {
        match le_u8(input, pos + 2) {
            None => Err(
                DecodeError { kind: ErrorKind::Truncated, record, field: Field::SiteType, offset: pos + 2 },
            ),
            Some(t) => match SiteType::from_u8(t) {
                Some(site_type) => Ok((SiteDepthAndType { depth, site_type }, b - 0x80, 3)),
                None => Err(
                    DecodeError {
                        kind: ErrorKind::UnknownEnum(t as u32),
                        record,
                        field: Field::SiteType,
                        offset: pos + 2,
                    },
                ),
            },
        }
    } else {
        match SiteType::from_u8(b) {
            Some(site_type) => Ok((SiteDepthAndType { depth, site_type }, 1, 2)),
            None => Err(
                DecodeError {
                    kind: ErrorKind::UnknownEnum(b as u32),
                    record,
                    field: Field::TypeOrCount,
                    offset: pos + 1,
                },
            ),
        }
    }
}

/// `count` copies of `entry`.
pub open spec fn repeated(entry: SiteDepthAndType, count: int) -> Seq<SiteDepthAndType> {
    Seq::new(count as nat, |i: int| entry)
}

/// The entries of the packed site list from `pos` on, unpacked, until the
/// `have` sites that `acc` holds have become `want` or more.
pub open spec fn spec_site_runs(
    input: Seq<u8>,
    pos: int,
    acc: Seq<SiteDepthAndType>,
    have: int,
    want: int,
) -> Result<(Seq<SiteDepthAndType>, int), DecodeError>
    decreases input.len() - pos,
{
    if have >= want {
        Ok((acc, pos))
    } else {
        match spec_site_run(input, pos) {
            Err(e) => Err(e),
            Ok((entry, count, size)) => spec_site_runs(
                input,
                pos + size,
                acc + repeated(entry, count),
                have + count,
                want,
            ),
        }
    }
}

/// The depths and types of the sites of a form, from the packed list at
/// `pos`: entries are taken until they stand for `count_of_sites` sites or
/// more, then the list is padded to a multiple of four bytes. Yields one
/// depth and type for each site.
pub open spec fn spec_site_depths_and_types(input: Seq<u8>, pos: int, count_of_sites: u32) -> Result<
    (Seq<SiteDepthAndType>, int),
    DecodeError,
> {
    match spec_site_runs(input, pos, Seq::empty(), 0, count_of_sites as int) {
        Err(e) => Err(e),
        Ok((list, p)) => match spec_padding(RecordKind::SiteDepthsAndTypes, input, p, p - pos) {
            Err(e) => Err(e),
            Ok(q) => Ok((list, q)),
        },
    }
}

/// Reads the depths and types of `count_of_sites` sites from the packed list at `pos`.
pub fn read_site_depths_and_types(input: &[u8], pos: usize, count_of_sites: u32) -> (r: Result<
    (Vec<SiteDepthAndType>, usize),
    DecodeError,
>)
    requires
        pos <= input@.len(),
    ensures
        read_as_view(r, input@, spec_site_depths_and_types(input@, pos as int, count_of_sites)),
        r matches Err(e) ==> e.offset <= input@.len(),
{
    let len = input.len();
    let mut ap = AlignedParser::new();
    let mut out: Vec<SiteDepthAndType> = Vec::new();
    let mut at: usize = pos;
    let mut have: u64 = 0;
    while have < count_of_sites as u64
        invariant
            pos <= at <= input@.len() == len,
            ap.cursor == at - pos,
            have <= count_of_sites + 0x80,
            spec_site_runs(input@, pos as int, Seq::empty(), 0, count_of_sites as int)
                == spec_site_runs(input@, at as int, out@, have as int, count_of_sites as int),
        decreases input@.len() - at,
    {
        let (entry, count, size) = read_site_run(input, at)?;
        let ghost before = out@;
        let mut k: u8 = 0;
        while k < count
            invariant
                k <= count,
                out@ == before + repeated(entry, k as int),
            decreases count - k,
        {
            out.push(entry);
            assert(out@ =~= before + repeated(entry, k + 1));
            k = k + 1;
        }
        ap.inc(size);
        at = at + size;
        have = have + count as u64;
    }
    let q = read_padding(RecordKind::SiteDepthsAndTypes, input, at, &mut ap)?;
    Ok((out, q))
}

/// The depths and types of `count_of_sites` sites at the start of `input`.
pub open spec fn spec_parse_site_depths_and_types(count_of_sites: u32, input: Seq<u8>) -> Result<
    (Seq<SiteDepthAndType>, int),
    DecodeError,
> {
    spec_site_depths_and_types(input, 0, count_of_sites)
}

/// Decodes the packed site list of a form from the start of `input`.
pub fn parse_site_depths_and_types<'a>(count_of_sites: u32, input: &'a [u8]) -> (r: Result<
    (&'a [u8], Vec<SiteDepthAndType>),
    DecodeError,
>)
    ensures
        decoded_view(r, input@, spec_parse_site_depths_and_types(count_of_sites, input@)),
{
    let (list, next) = read_site_depths_and_types(input, 0, count_of_sites)?;
    Ok((rest_of(input, next), list))
}

/// The sites that follow one another from `pos`, one for each entry of
/// `list` from entry `i` on, behind the `acc` that were read before. Each
/// site takes its depth from its entry.
pub open spec fn spec_sites(
    input: Seq<u8>,
    pos: int,
    list: Seq<SiteDepthAndType>,
    i: int,
    acc: Seq<SiteModel>,
) -> Result<(Seq<SiteModel>, int), DecodeError>
    decreases list.len() - i,
{
    if i < 0 || i >= list.len() {
        Ok((acc, pos))
    } else {
        match spec_ole_site_concrete(input, pos) {
            Err(e) => Err(e),
            Ok((site, next)) => spec_sites(
                input,
                next,
                list,
                i + 1,
                acc.push(SiteModel { kind: SiteKindModel::Ole(site), depth: list[i].depth }),
            ),
        }
    }
}

/// Reads one site for each entry of `list` from `pos`.
pub fn read_sites(input: &[u8], pos: usize, list: &Vec<SiteDepthAndType>) -> (r: Result<
    (Vec<Site>, usize),
    DecodeError,
>)
    requires
        pos <= input@.len(),
    ensures
        match spec_sites(input@, pos as int, list@, 0, Seq::empty()) {
            Ok((sites, next)) => r matches Ok((v, p)) && sites_view(v@) == sites && p == next && p
                <= input@.len(),
            Err(e) => r == Err::<(Vec<Site>, usize), DecodeError>(e),
        },
        r matches Err(e) ==> e.offset <= input@.len(),
{
    let mut out: Vec<Site> = Vec::new();
    let mut at: usize = pos;
    let mut i: usize = 0;
    assert(sites_view(out@) =~= Seq::<SiteModel>::empty());
    while i < list.len()
        invariant
            i <= list@.len(),
            at <= input@.len(),
            spec_sites(input@, pos as int, list@, 0, Seq::empty()) == spec_sites(
                input@,
                at as int,
                list@,
                i as int,
                sites_view(out@),
            ),
        decreases list@.len() - i,
    {
        let entry = list[i];
        let ghost before = sites_view(out@);
        match entry.site_type {
            SiteType::Ole => {
                let (site, next) = read_ole_site_concrete(input, at)?;
                let site = Site { kind: SiteKind::Ole(site), depth: entry.depth };
                let ghost model = site@;
                out.push(site);
                assert(sites_view(out@) =~= before.push(model));
                at = next;
            },
        }
        i = i + 1;
    }
    Ok((out, at))
}

/// The sites of `site_depths_and_types` at the start of `input`.
pub open spec fn spec_parse_sites(site_depths_and_types: Seq<SiteDepthAndType>, input: Seq<u8>) -> Result<
    (Seq<SiteModel>, int),
    DecodeError,
> {
    spec_sites(input, 0, site_depths_and_types, 0, Seq::empty())
}

/// Decodes the sites of a form, one for each depth and type, from the start of `input`.
pub fn parse_sites<'a>(site_depths_and_types: Vec<SiteDepthAndType>, input: &'a [u8]) -> (r: Result<
    (&'a [u8], Vec<Site>),
    DecodeError,
>)
    ensures
        match spec_parse_sites(site_depths_and_types@, input@) {
            Ok((sites, next)) => r matches Ok((rest, v)) && sites_view(v@) == sites && 0 <= next
                <= input@.len() && rest@ == input@.skip(next),
            Err(e) => r == Err::<(&[u8], Vec<Site>), DecodeError>(e),
        },
{
    let (sites, next) = read_sites(input, 0, &site_depths_and_types)?;
    Ok((rest_of(input, next), sites))
}

/// The least zoom of a form, in percent.
pub const MIN_ZOOM: u32 = 10;

/// The greatest zoom of a form, in percent.
pub const MAX_ZOOM: u32 = 400;

/// The fixed block of a form, in file order. The mouse icon, the font and the
/// picture have a placeholder here and their data in the stream data; the
/// caption has its length and compression here and its text in the extra data.
pub open spec fn form_props() -> Seq<Prop> {
    seq![
        Prop::new(FormPropMask::BACK_COLOR, 4, Check::Color, 0x8000_000F, Field::BackColor),
        Prop::new(FormPropMask::FORE_COLOR, 4, Check::Color, 0x8000_0012, Field::ForeColor),
        Prop::new(FormPropMask::NEXT_AVAILABLE_ID, 4, Check::Any, 0, Field::NextAvailableId),
        Prop::new(FormPropMask::BOOLEAN_PROPERTIES, 4, Check::Bits(FormFlags::ALL), 0x4, Field::BooleanProperties),
        Prop::new(FormPropMask::BORDER_STYLE, 1, Check::Variant(Variant::BorderStyle), 0, Field::BorderStyle),
        Prop::new(FormPropMask::MOUSE_POINTER, 1, Check::Variant(Variant::MousePointer), 0, Field::MousePointer),
        Prop::new(FormPropMask::SCROLL_BARS, 1, Check::Bits(FormScrollBarFlags::ALL as u32), 0x0C, Field::ScrollBars),
        Prop::new(FormPropMask::GROUP_CNT, 4, Check::Any, 0, Field::GroupCount),
        Prop::new(FormPropMask::MOUSE_ICON, 2, Check::Placeholder, 0xFFFF, Field::MouseIcon),
        Prop::new(FormPropMask::CYCLE, 1, Check::Variant(Variant::Cycle), 0, Field::Cycle),
        Prop::new(FormPropMask::SPECIAL_EFFECT, 1, Check::Variant(Variant::SpecialEffect), 0, Field::SpecialEffect),
        Prop::new(FormPropMask::BORDER_COLOR, 4, Check::Color, 0x8000_0012, Field::BorderColor),
        Prop::new(FormPropMask::CAPTION, 4, Check::Any, 0, Field::Caption),
        Prop::new(FormPropMask::FONT, 2, Check::Placeholder, 0xFFFF, Field::Font),
        Prop::new(FormPropMask::PICTURE, 2, Check::Placeholder, 0xFFFF, Field::Picture),
        Prop::new(FormPropMask::ZOOM, 4, Check::Range(MIN_ZOOM, MAX_ZOOM), 100, Field::Zoom),
        Prop::new(FormPropMask::PICTURE_ALIGNMENT, 1, Check::Variant(Variant::PictureAlignment), 2, Field::PictureAlignment),
        Prop::new(FormPropMask::PICTURE_SIZE_MODE, 1, Check::Variant(Variant::PictureSizeMode), 0, Field::PictureSizeMode),
        Prop::new(FormPropMask::SHAPE_COOKIE, 4, Check::Any, 0, Field::ShapeCookie),
        Prop::new(FormPropMask::DRAW_BUFFER, 4, Check::Any, 0, Field::DrawBuffer),
    ]
}

/// The table of a form is well formed.
pub proof fn lemma_form_props_wf()
    ensures
        props_wf(form_props()),
{
    assert(0x4u32 & !0x0000_C004u32 == 0 && 0x0Cu32 & !(0x1Fu8 as u32) == 0) by (bit_vector);
}

/// The table of [`form_props`].
pub fn form_table() -> (t: [Prop; 20])
    ensures
        t@ == form_props(),
        props_wf(t@),
{
    let t: [Prop; 20] = [
        Prop::new(FormPropMask::BACK_COLOR, 4, Check::Color, 0x8000_000F, Field::BackColor),
        Prop::new(FormPropMask::FORE_COLOR, 4, Check::Color, 0x8000_0012, Field::ForeColor),
        Prop::new(FormPropMask::NEXT_AVAILABLE_ID, 4, Check::Any, 0, Field::NextAvailableId),
        Prop::new(FormPropMask::BOOLEAN_PROPERTIES, 4, Check::Bits(FormFlags::ALL), 0x4, Field::BooleanProperties),
        Prop::new(FormPropMask::BORDER_STYLE, 1, Check::Variant(Variant::BorderStyle), 0, Field::BorderStyle),
        Prop::new(FormPropMask::MOUSE_POINTER, 1, Check::Variant(Variant::MousePointer), 0, Field::MousePointer),
        Prop::new(FormPropMask::SCROLL_BARS, 1, Check::Bits(FormScrollBarFlags::ALL as u32), 0x0C, Field::ScrollBars),
        Prop::new(FormPropMask::GROUP_CNT, 4, Check::Any, 0, Field::GroupCount),
        Prop::new(FormPropMask::MOUSE_ICON, 2, Check::Placeholder, 0xFFFF, Field::MouseIcon),
        Prop::new(FormPropMask::CYCLE, 1, Check::Variant(Variant::Cycle), 0, Field::Cycle),
        Prop::new(FormPropMask::SPECIAL_EFFECT, 1, Check::Variant(Variant::SpecialEffect), 0, Field::SpecialEffect),
        Prop::new(FormPropMask::BORDER_COLOR, 4, Check::Color, 0x8000_0012, Field::BorderColor),
        Prop::new(FormPropMask::CAPTION, 4, Check::Any, 0, Field::Caption),
        Prop::new(FormPropMask::FONT, 2, Check::Placeholder, 0xFFFF, Field::Font),
        Prop::new(FormPropMask::PICTURE, 2, Check::Placeholder, 0xFFFF, Field::Picture),
        Prop::new(FormPropMask::ZOOM, 4, Check::Range(MIN_ZOOM, MAX_ZOOM), 100, Field::Zoom),
        Prop::new(FormPropMask::PICTURE_ALIGNMENT, 1, Check::Variant(Variant::PictureAlignment), 2, Field::PictureAlignment),
        Prop::new(FormPropMask::PICTURE_SIZE_MODE, 1, Check::Variant(Variant::PictureSizeMode), 0, Field::PictureSizeMode),
        Prop::new(FormPropMask::SHAPE_COOKIE, 4, Check::Any, 0, Field::ShapeCookie),
        Prop::new(FormPropMask::DRAW_BUFFER, 4, Check::Any, 0, Field::DrawBuffer),
    ];
    assert(t@ =~= form_props());
    proof {
        lemma_form_props_wf();
    }
    t
}

/// The properties that the fixed block of a form holds.
pub struct FormFixed {
    pub back_color: OleColor,
    pub fore_color: OleColor,
    pub next_available_id: u32,
    pub boolean_properties: FormFlags,
    pub border_style: BorderStyle,
    pub mouse_pointer: MousePointer,
    pub scroll_bars: FormScrollBarFlags,
    pub group_count: u32,
    pub cycle: Cycle,
    pub special_effect: SpecialEffect,
    pub border_color: OleColor,
    pub zoom: u32,
    pub picture_alignment: PictureAlignment,
    pub picture_size_mode: PictureSizeMode,
    pub shape_cookie: u32,
    pub draw_buffer: u32,
    pub picture_tiling: bool,
}

/// The properties that the raw values of the fixed block of a form stand
/// for. Whether the picture is tiled is a bit of the mask itself.
pub open spec fn form_fixed_of(mask: u32, vals: Seq<u32>) -> FormFixed {
    FormFixed {
        back_color: OleColor::spec_from_u32(vals[0]).unwrap(),
        fore_color: OleColor::spec_from_u32(vals[1]).unwrap(),
        next_available_id: vals[2],
        boolean_properties: FormFlags { bits: vals[3] },
        border_style: BorderStyle::spec_from_u8(vals[4] as u8).unwrap(),
        mouse_pointer: MousePointer::spec_from_u8(vals[5] as u8).unwrap(),
        scroll_bars: FormScrollBarFlags { bits: vals[6] as u8 },
        group_count: vals[7],
        cycle: Cycle::spec_from_u8(vals[9] as u8).unwrap(),
        special_effect: SpecialEffect::spec_from_u8(vals[10] as u8).unwrap(),
        border_color: OleColor::spec_from_u32(vals[11]).unwrap(),
        zoom: vals[15],
        picture_alignment: PictureAlignment::spec_from_u8(vals[16] as u8).unwrap(),
        picture_size_mode: PictureSizeMode::spec_from_u8(vals[17] as u8).unwrap(),
        shape_cookie: vals[18],
        draw_buffer: vals[19],
        picture_tiling: mask & FormPropMask::PICTURE_TILING != 0,
    }
}

/// Whether raw values are those of a fixed block of a form that passed its checks.
pub open spec fn form_vals_ok(vals: Seq<u32>) -> bool {
    &&& vals.len() == 20
    &&& forall|i: int|
        0 <= i < 20 ==> {
            &&& check_ok(form_props()[i].check, #[trigger] vals[i])
            &&& vals[i] <= width_max(form_props()[i].width as int)
        }
}

/// Turns the raw values of the fixed block of a form into its properties.
pub fn form_fixed(mask: u32, vals: &Vec<u32>) -> (r: FormFixed)
    requires
        form_vals_ok(vals@),
    ensures
        r == form_fixed_of(mask, vals@),
{
    proof {
        let props = form_props();
        assert(check_ok(props[0].check, vals@[0]));
        assert(check_ok(props[1].check, vals@[1]));
        assert(check_ok(props[4].check, vals@[4]) && vals@[4] <= width_max(
            props[4].width as int,
        ));
        assert(check_ok(props[5].check, vals@[5]) && vals@[5] <= width_max(
            props[5].width as int,
        ));
        assert(check_ok(props[9].check, vals@[9]) && vals@[9] <= width_max(
            props[9].width as int,
        ));
        assert(check_ok(props[10].check, vals@[10]) && vals@[10]
            <= width_max(props[10].width as int));
        assert(check_ok(props[11].check, vals@[11]));
        assert(check_ok(props[16].check, vals@[16]) && vals@[16]
            <= width_max(props[16].width as int));
        assert(check_ok(props[17].check, vals@[17]) && vals@[17]
            <= width_max(props[17].width as int));
    }
    FormFixed {
        back_color: OleColor::from_u32(vals[0]).unwrap(),
        fore_color: OleColor::from_u32(vals[1]).unwrap(),
        next_available_id: vals[2],
        boolean_properties: FormFlags { bits: vals[3] },
        border_style: BorderStyle::from_u8(vals[4] as u8).unwrap(),
        mouse_pointer: MousePointer::from_u8(vals[5] as u8).unwrap(),
        scroll_bars: FormScrollBarFlags { bits: vals[6] as u8 },
        group_count: vals[7],
        cycle: Cycle::from_u8(vals[9] as u8).unwrap(),
        special_effect: SpecialEffect::from_u8(vals[10] as u8).unwrap(),
        border_color: OleColor::from_u32(vals[11]).unwrap(),
        zoom: vals[15],
        picture_alignment: PictureAlignment::from_u8(vals[16] as u8).unwrap(),
        picture_size_mode: PictureSizeMode::from_u8(vals[17] as u8).unwrap(),
        shape_cookie: vals[18],
        draw_buffer: vals[19],
        picture_tiling: mask & FormPropMask::PICTURE_TILING != 0,
    }
}

/// A size of the extra data of `record`: stored at `pos` when `stored`, else
/// the default with no bytes taken.
pub open spec fn spec_opt_size(
    record: RecordKind,
    field: Field,
    input: Seq<u8>,
    pos: int,
    stored: bool,
    default: Size,
) -> Result<(Size, int), DecodeError> {
    if !stored {
        Ok((default, pos))
    } else if pos + 8 > input.len() {
        Err(DecodeError::at(ErrorKind::Truncated, record, field, pos))
    } else {
        Ok((spec_size(input, pos), pos + 8))
    }
}

/// Reads a size of the extra data of `record` and counts its bytes on the cursor.
pub fn read_opt_size(
    record: RecordKind,
    field: Field,
    input: &[u8],
    pos: usize,
    stored: bool,
    default: Size,
    ap: &mut AlignedParser,
) -> (r: Result<(Size, usize), DecodeError>)
    requires
        old(ap).cursor <= pos <= input@.len(),
    ensures
        read_as(r, input@, spec_opt_size(record, field, input@, pos as int, stored, default)),
        r matches Ok((_, p)) ==> final(ap).cursor <= p,
        r matches Err(e) ==> e.offset <= input@.len(),
{
    if !stored {
        return Ok((default, pos));
    }
    let len = input.len();
    match read_size(input, pos) {
        Some(size) => {
            ap.inc(8);
            Ok((size, pos + 8))
        },
        None => Err(DecodeError { kind: ErrorKind::Truncated, record, field, offset: pos }),
    }
}

/// The font of the stream data of a form: stored at `pos` when `stored`,
/// else no font with no bytes taken.
pub open spec fn spec_opt_font(input: Seq<u8>, pos: int, stored: bool) -> Result<
    (GuidAndFontModel, int),
    DecodeError,
> {
    if !stored {
        Ok((GuidAndFont::spec_empty(), pos))
    } else {
        spec_guid_and_font(input, pos)
    }
}

/// The default of the displayed size and of the logical size of a form.
pub open spec fn default_form_size() -> Size {
    Size { width: 4000, height: 3000 }
}

/// What follows the fixed block of a form, up to the class table.
pub struct FormExtra {
    pub displayed_size: Size,
    pub logical_size: Size,
    pub scroll_position: Position,
    pub caption: String,
    pub font: GuidAndFont,
}

/// The mathematical value of a [`FormExtra`].
pub struct FormExtraModel {
    pub displayed_size: Size,
    pub logical_size: Size,
    pub scroll_position: Position,
    pub caption: Seq<char>,
    pub font: GuidAndFontModel,
}

impl View for FormExtra {
    type V = FormExtraModel;

    open spec fn view(&self) -> FormExtraModel {
        FormExtraModel {
            displayed_size: self.displayed_size,
            logical_size: self.logical_size,
            scroll_position: self.scroll_position,
            caption: self.caption@,
            font: self.font@,
        }
    }
}

/// The extra data and the stream data of a form at `pos`, in file order:
/// displayed size, logical size, scroll position and caption, then the font;
/// each only if its mask bit is set. `caption` is the raw length and
/// compression of the caption.
pub open spec fn spec_form_extra(input: Seq<u8>, pos: int, mask: u32, caption: u32) -> Result<
    (FormExtraModel, int),
    DecodeError,
> {
    let rec = RecordKind::FormControl;
    match spec_opt_size(
        rec,
        Field::DisplayedSize,
        input,
        pos,
        mask & FormPropMask::DISPLAYED_SIZE != 0,
        default_form_size(),
    ) {
        Err(e) => Err(e),
        Ok((displayed_size, at1)) => match spec_opt_size(
            rec,
            Field::LogicalSize,
            input,
            at1,
            mask & FormPropMask::LOGICAL_SIZE != 0,
            default_form_size(),
        ) {
            Err(e) => Err(e),
            Ok((logical_size, at2)) => match spec_opt_position(
                rec,
                Field::ScrollPosition,
                input,
                at2,
                mask & FormPropMask::SCROLL_POSITION != 0,
            ) {
                Err(e) => Err(e),
                Ok((scroll_position, at3)) => match spec_opt_string(
                    rec,
                    Field::Caption,
                    input,
                    at3,
                    mask & FormPropMask::CAPTION != 0,
                    caption,
                ) {
                    Err(e) => Err(e),
                    Ok((caption, at4)) => match spec_opt_font(
                        input,
                        at4,
                        mask & FormPropMask::FONT != 0,
                    ) {
                        Err(e) => Err(e),
                        Ok((font, at5)) => Ok(
                            (
                                FormExtraModel {
                                    displayed_size,
                                    logical_size,
                                    scroll_position,
                                    caption,
                                    font,
                                },
                                at5,
                            ),
                        ),
                    },
                },
            },
        },
    }
}

/// Reads the extra data and the stream data of a form at `pos`.
pub fn read_form_extra(input: &[u8], pos: usize, mask: u32, caption: u32, ap: &mut AlignedParser) -> (r:
    Result<(FormExtra, usize), DecodeError>)
    requires
        old(ap).cursor <= pos <= input@.len(),
    ensures
        read_as_view(r, input@, spec_form_extra(input@, pos as int, mask, caption)),
{
    let record = RecordKind::FormControl;
    let (displayed_size, q) = read_opt_size(
        record,
        Field::DisplayedSize,
        input,
        pos,
        mask & FormPropMask::DISPLAYED_SIZE != 0,
        Size::new(4000, 3000),
        ap,
    )?;
    let (logical_size, q) = read_opt_size(
        record,
        Field::LogicalSize,
        input,
        q,
        mask & FormPropMask::LOGICAL_SIZE != 0,
        Size::new(4000, 3000),
        ap,
    )?;
    let (scroll_position, q) = read_opt_position(
        record,
        Field::ScrollPosition,
        input,
        q,
        mask & FormPropMask::SCROLL_POSITION != 0,
        ap,
    )?;
    let (caption, q) = read_opt_string(
        record,
        Field::Caption,
        input,
        q,
        mask & FormPropMask::CAPTION != 0,
        caption,
        ap,
    )?;
    let (font, q) = if mask & FormPropMask::FONT != 0 {
        read_guid_and_font(input, q)?
    } else {
        (GuidAndFont::EMPTY(), q)
    };
    Ok((FormExtra { displayed_size, logical_size, scroll_position, caption, font }, q))
}

/// The class table of a form at `pos`: a 16-bit count and that many entries,
/// unless the form says that its class table is not saved.
pub open spec fn spec_class_table(input: Seq<u8>, pos: int, saved: bool) -> Result<
    (Seq<SiteClassInfo>, int),
    DecodeError,
> {
    if !saved {
        Ok((Seq::empty(), pos))
    } else if pos + 2 > input.len() {
        Err(
            DecodeError::at(
                ErrorKind::Truncated,
                RecordKind::FormControl,
                Field::CountOfSiteClassInfo,
                pos,
            ),
        )
    } else {
        spec_class_infos(input, pos + 2, le_value(input, pos, 2) as int, Seq::empty())
    }
}

/// Reads the class table of a form at `pos`.
pub fn read_class_table(input: &[u8], pos: usize, saved: bool) -> (r: Result<
    (Vec<SiteClassInfo>, usize),
    DecodeError,
>)
    requires
        pos <= input@.len(),
    ensures
        read_as_view(r, input@, spec_class_table(input@, pos as int, saved)),
{
    if !saved {
        return Ok((Vec::new(), pos));
    }
    let len = input.len();
    match le_u16(input, pos) {
        None => Err(
            DecodeError {
                kind: ErrorKind::Truncated,
                record: RecordKind::FormControl,
                field: Field::CountOfSiteClassInfo,
                offset: pos,
            },
        ),
        Some(n) => read_class_infos(input, pos + 2, n),
    }
}

/// The sites that a site block decodes to: the packed list of depths and
/// types for `count_of_sites` sites, then one site for each entry. Yields the
/// sites and the number of bytes of the block that they fill. Offsets count
/// from the start of the block.
pub open spec fn spec_site_block(block: Seq<u8>, count_of_sites: u32) -> Result<
    (Seq<SiteModel>, int),
    DecodeError,
> {
    match spec_site_depths_and_types(block, 0, count_of_sites) {
        Err(e) => Err(e),
        Ok((list, p)) => spec_sites(block, p, list, 0, Seq::empty()),
    }
}

/// Decodes a site block.
pub fn read_site_block(block: &[u8], count_of_sites: u32) -> (r: Result<(Vec<Site>, usize), DecodeError>)
    ensures
        match spec_site_block(block@, count_of_sites) {
            Ok((sites, next)) => r matches Ok((v, p)) && sites_view(v@) == sites && p == next && p
                <= block@.len(),
            Err(e) => r == Err::<(Vec<Site>, usize), DecodeError>(e),
        },
        r matches Err(e) ==> e.offset <= block@.len(),
{
    let (list, p) = read_site_depths_and_types(block, 0, count_of_sites)?;
    read_sites(block, p, &list)
}

/// The site data of a form at `pos`: the count of sites, the count of bytes
/// of the site block, and the block. The input must hold the whole block,
/// and the sites must fill it exactly.
pub open spec fn spec_site_data(input: Seq<u8>, pos: int) -> Result<(Seq<SiteModel>, int), DecodeError> {
    let rec = RecordKind::FormControl;
    let count_of_sites = le_value(input, pos, 4);
    let count_of_bytes = le_value(input, pos + 4, 4);
    if pos + 4 > input.len() {
        Err(DecodeError::at(ErrorKind::Truncated, rec, Field::CountOfSites, pos))
    } else if pos + 8 > input.len() {
        Err(DecodeError::at(ErrorKind::Truncated, rec, Field::CountOfBytes, pos + 4))
    } else if pos + 8 + count_of_bytes > input.len() {
        Err(DecodeError::at(ErrorKind::Truncated, rec, Field::Sites, pos + 8))
    } else {
        match spec_site_block(input.subrange(pos + 8, pos + 8 + count_of_bytes), count_of_sites) {
            Err(e) => Err(e.spec_shifted(pos + 8)),
            Ok((sites, used)) => if used != count_of_bytes {
                Err(DecodeError::at(ErrorKind::ConstraintViolation, rec, Field::CountOfBytes, pos + 4))
            } else {
                Ok((sites, pos + 8 + count_of_bytes))
            },
        }
    }
}

/// Reads the site data of a form at `pos`.
pub fn read_site_data(input: &[u8], pos: usize) -> (r: Result<(Vec<Site>, usize), DecodeError>)
    requires
        pos <= input@.len(),
    ensures
        match spec_site_data(input@, pos as int) {
            Ok((sites, next)) => r matches Ok((v, p)) && sites_view(v@) == sites && p == next && p
                <= input@.len(),
            Err(e) => r == Err::<(Vec<Site>, usize), DecodeError>(e),
        },
{
    let record = RecordKind::FormControl;
    let len = input.len();
    let count_of_sites = match le_u32(input, pos) {
        Some(n) => n,
        None => {
            return Err(
                DecodeError { kind: ErrorKind::Truncated, record, field: Field::CountOfSites, offset: pos },
            );
        },
    };
    let count_of_bytes = match le_u32(input, pos + 4) {
        Some(n) => n as usize,
        None => {
            return Err(
                DecodeError {
                    kind: ErrorKind::Truncated,
                    record,
                    field: Field::CountOfBytes,
                    offset: pos + 4,
                },
            );
        },
    };
    let start = pos + 8;
    if len - start < count_of_bytes {
        return Err(DecodeError { kind: ErrorKind::Truncated, record, field: Field::Sites, offset: start });
    }
    let end = start + count_of_bytes;
    match read_site_block(slice_subrange(input, start, end), count_of_sites) {
        Err(e) => Err(e.shifted(start)),
        Ok((sites, used)) => {
            if used != count_of_bytes {
                Err(
                    DecodeError {
                        kind: ErrorKind::ConstraintViolation,
                        record,
                        field: Field::CountOfBytes,
                        offset: pos + 4,
                    },
                )
            } else {
                Ok((sites, end))
            }
        },
    }
}

/// The form that its parts make up. The mouse icon and the picture are
/// left empty.
pub open spec fn form_of(
    fixed: FormFixed,
    extra: FormExtraModel,
    site_classes: Seq<SiteClassInfo>,
    sites: Seq<SiteModel>,
) -> FormControlModel {
    FormControlModel {
        back_color: fixed.back_color,
        fore_color: fixed.fore_color,
        next_available_id: fixed.next_available_id,
        boolean_properties: fixed.boolean_properties,
        border_style: fixed.border_style,
        mouse_pointer: fixed.mouse_pointer,
        scroll_bars: fixed.scroll_bars,
        group_count: fixed.group_count,
        cycle: fixed.cycle,
        special_effect: fixed.special_effect,
        border_color: fixed.border_color,
        zoom: fixed.zoom,
        draw_buffer: fixed.draw_buffer,
        picture_alignment: fixed.picture_alignment,
        picture_size_mode: fixed.picture_size_mode,
        shape_cookie: fixed.shape_cookie,
        displayed_size: extra.displayed_size,
        logical_size: extra.logical_size,
        scroll_position: extra.scroll_position,
        caption: extra.caption,
        mouse_icon: GuidAndPictureModel::Empty,
        font: extra.font,
        picture: GuidAndPictureModel::Empty,
        picture_tiling: fixed.picture_tiling,
        sites,
        site_classes,
    }
}

/// What follows the fixed block and its padding in a form, from `pos`: the
/// extra data and stream data, the class table, and the site data.
pub open spec fn spec_form_rest(input: Seq<u8>, pos: int, mask: u32, vals: Seq<u32>) -> Result<
    (FormControlModel, int),
    DecodeError,
> {
    let fixed = form_fixed_of(mask, vals);
    match spec_form_extra(input, pos, mask, vals[12]) {
        Err(e) => Err(e),
        Ok((extra, at1)) => match spec_class_table(
            input,
            at1,
            !fixed.boolean_properties.contains(FormFlags::DONTSAVECLASSTABLE),
        ) {
            Err(e) => Err(e),
            Ok((site_classes, at2)) => match spec_site_data(input, at2) {
                Err(e) => Err(e),
                Ok((sites, at3)) => Ok((form_of(fixed, extra, site_classes, sites), at3)),
            },
        },
    }
}

/// Reads what follows the fixed block and its padding in a form.
pub fn read_form_rest(input: &[u8], pos: usize, mask: u32, vals: &Vec<u32>, ap: &mut AlignedParser) -> (r:
    Result<(FormControl, usize), DecodeError>)
    requires
        old(ap).cursor <= pos <= input@.len(),
        form_vals_ok(vals@),
    ensures
        read_as_view(r, input@, spec_form_rest(input@, pos as int, mask, vals@)),
{
    let fixed = form_fixed(mask, vals);
    let (extra, q) = read_form_extra(input, pos, mask, vals[12], ap)?;
    let (site_classes, q) = read_class_table(
        input,
        q,
        !fixed.boolean_properties.contains(FormFlags::DONTSAVECLASSTABLE),
    )?;
    let (sites, q) = read_site_data(input, q)?;
    Ok(
        (
            FormControl {
                back_color: fixed.back_color,
                fore_color: fixed.fore_color,
                next_available_id: fixed.next_available_id,
                boolean_properties: fixed.boolean_properties,
                border_style: fixed.border_style,
                mouse_pointer: fixed.mouse_pointer,
                scroll_bars: fixed.scroll_bars,
                group_count: fixed.group_count,
                cycle: fixed.cycle,
                special_effect: fixed.special_effect,
                border_color: fixed.border_color,
                zoom: fixed.zoom,
                draw_buffer: fixed.draw_buffer,
                picture_alignment: fixed.picture_alignment,
                picture_size_mode: fixed.picture_size_mode,
                shape_cookie: fixed.shape_cookie,
                displayed_size: extra.displayed_size,
                logical_size: extra.logical_size,
                scroll_position: extra.scroll_position,
                caption: extra.caption,
                mouse_icon: GuidAndPicture::EMPTY(),
                font: extra.font,
                picture: GuidAndPicture::EMPTY(),
                picture_tiling: fixed.picture_tiling,
                sites,
                site_classes,
            },
            q,
        ),
    )
}

/// The form at the start of `input`: the header `00 04` with a byte count
/// that is not used, the property mask, the fixed block of [`form_props`],
/// padding to four, and what [`spec_form_rest`] describes.
pub open spec fn spec_parse_form_control(input: Seq<u8>) -> Result<(FormControlModel, int), DecodeError> {
    let rec = RecordKind::FormControl;
    let props = form_props();
    match spec_header(rec, input, 0, 0x00, 0x04) {
        Err(e) => Err(e),
        Ok((_, p)) => match spec_mask(rec, input, p, FormPropMask::ALL) {
            Err(e) => Err(e),
            Ok(mask) => match fixed_block(rec, props, mask, input, p + 4, 4, 20) {
                Err(e) => Err(e),
                Ok(vals) => match spec_padding(
                    rec,
                    input,
                    prop_pos(props, mask, p + 4, 4, 20),
                    fixed_cursor(props, mask, 4, 20),
                ) {
                    Err(e) => Err(e),
                    Ok(q) => spec_form_rest(input, q, mask, vals),
                },
            },
        },
    }
}

/// The zoom of a form that decodes is from 10 through 400.
pub proof fn lemma_form_zoom(input: Seq<u8>)
    requires
        spec_parse_form_control(input) is Ok,
    ensures
        MIN_ZOOM <= spec_parse_form_control(input)->Ok_0.0.zoom <= MAX_ZOOM,
{
    let rec = RecordKind::FormControl;
    let mask = le_value(input, 4, 4);
    let props = form_props();
    lemma_form_props_wf();
    lemma_fixed_block_ok(rec, props, mask, input, 8, 4, 20);
    let vals = fixed_block(rec, props, mask, input, 8, 4, 20)->Ok_0;
    assert(check_ok(props[15].check, vals[15]));
}

/// Decodes a form stream.
pub fn parse_form_control<'a>(input: &'a [u8]) -> (r: Result<(&'a [u8], FormControl), DecodeError>)
    ensures
        decoded_view(r, input@, spec_parse_form_control(input@)),
        r matches Ok((_, form)) ==> MIN_ZOOM <= form.zoom <= MAX_ZOOM,
{
    proof {
        if spec_parse_form_control(input@) is Ok {
            lemma_form_zoom(input@);
        }
    }
    let record = RecordKind::FormControl;
    let len = input.len();
    let (_count, p) = read_header(record, input, 0, 0x00, 0x04)?;
    let mut ap = AlignedParser::new();
    let mask = read_mask(record, input, p, FormPropMask::ALL, &mut ap)?;
    let table = form_table();
    let (vals, q) = read_fixed_block(record, table.as_slice(), mask, input, p + 4, &mut ap)?;
    proof {
        lemma_fixed_block_ok(record, table@, mask, input@, p + 4, 4, 20);
    }
    let q = read_padding(record, input, q, &mut ap)?;
    let (form, next) = read_form_rest(input, q, mask, &vals, &mut ap)?;
    Ok((rest_of(input, next), form))
}

/// The header of a form at the start of `input`.
pub open spec fn spec_parse_form_control_header(input: Seq<u8>) -> Result<(u16, int), DecodeError> {
    spec_header(RecordKind::FormControl, input, 0, 0x00, 0x04)
}

/// Decodes the header of a form and returns its byte count.
pub fn parse_form_control_header<'a>(input: &'a [u8]) -> (r: Result<(&'a [u8], u16), DecodeError>)
    ensures
        decoded(r, input@, spec_parse_form_control_header(input@)),
{
    let (count, next) = read_header(RecordKind::FormControl, input, 0, 0x00, 0x04)?;
    Ok((rest_of(input, next), count))
}

/// Whether `input` begins with the header of a form and a property mask
/// without reserved bits.
pub open spec fn form_opens(input: Seq<u8>) -> bool {
    &&& input.len() >= 8
    &&& input[0] == 0x00
    &&& input[1] == 0x04
    &&& le_value(input, 4, 4) & !FormPropMask::ALL == 0
}

/// The property mask of a form stream.
pub open spec fn form_mask(input: Seq<u8>) -> u32 {
    le_value(input, 4, 4)
}

/// Strict rejection of reserved mask bits: a form whose property mask has a
/// bit that is not declared fails with `UnknownBits` of the mask.
pub proof fn lemma_form_rejects_unknown_mask_bits(input: Seq<u8>)
    requires
        input.len() >= 8,
        input[0] == 0x00,
        input[1] == 0x04,
        form_mask(input) & !FormPropMask::ALL != 0,
    ensures
        spec_parse_form_control(input) == Err::<(FormControlModel, int), DecodeError>(
            DecodeError::at(
                ErrorKind::UnknownBits(form_mask(input)),
                RecordKind::FormControl,
                Field::PropMask,
                4,
            ),
        ),
{
}

/// Strict rejection in the fixed block of a form: if the entries in front of
/// entry `i` decode and entry `i` is stored and fails its check, the form
/// fails with the cause of that check at that field.
pub proof fn lemma_form_rejects_bad_value(input: Seq<u8>, i: int)
    requires
        form_opens(input),
        0 <= i < 20,
        fixed_block(RecordKind::FormControl, form_props(), form_mask(input), input, 8, 4, i) is Ok,
        present(form_mask(input), form_props()[i]),
        prop_at(form_props(), form_mask(input), 8, 4, i) + form_props()[i].width
            <= input.len(),
        !check_ok(
            form_props()[i].check,
            le_value(
                input,
                prop_at(form_props(), form_mask(input), 8, 4, i),
                form_props()[i].width as int,
            ),
        ),
    ensures
        spec_parse_form_control(input) == Err::<(FormControlModel, int), DecodeError>(
            DecodeError::at(
                check_error(
                    form_props()[i].check,
                    le_value(
                        input,
                        prop_at(form_props(), form_mask(input), 8, 4, i),
                        form_props()[i].width as int,
                    ),
                ),
                RecordKind::FormControl,
                form_props()[i].field,
                prop_at(form_props(), form_mask(input), 8, 4, i),
            ),
        ),
{
    lemma_fixed_block_rejects(
        RecordKind::FormControl,
        form_props(),
        form_mask(input),
        input,
        8,
        4,
        i,
        20,
    );
}

/// Placeholder enforcement: the mouse icon, the font and the picture of a
/// form are entries 8, 13 and 14 of its fixed block, gated by their mask bits,
/// and each accepts no value but `0xFFFF`. With
/// [`lemma_form_rejects_bad_value`], any other value in a stored slot fails
/// the form with `PlaceholderMismatch`.
pub proof fn lemma_form_placeholders(v: u32)
    ensures
        form_props()[8].bit == FormPropMask::MOUSE_ICON,
        form_props()[13].bit == FormPropMask::FONT,
        form_props()[14].bit == FormPropMask::PICTURE,
        form_props()[8].field == Field::MouseIcon,
        form_props()[13].field == Field::Font,
        form_props()[14].field == Field::Picture,
        form_props()[8].check == Check::Placeholder,
        form_props()[13].check == Check::Placeholder,
        form_props()[14].check == Check::Placeholder,
        check_ok(Check::Placeholder, v) <==> v == 0xFFFF,
        v != 0xFFFF ==> check_error(Check::Placeholder, v)
            == ErrorKind::PlaceholderMismatch,
{
}

/// Placeholder enforcement: if the mouse icon, the font or the picture of a
/// form (entry 8, 13 or 14) is stored, the entries in front of it decode, and
/// its slot holds any value but `0xFFFF`, the form fails with
/// `PlaceholderMismatch` at that slot.
pub proof fn lemma_form_placeholder_mismatch(input: Seq<u8>, i: int)
    requires
        form_opens(input),
        i == 8 || i == 13 || i == 14,
        fixed_block(RecordKind::FormControl, form_props(), form_mask(input), input, 8, 4, i) is Ok,
        present(form_mask(input), form_props()[i]),
        prop_at(form_props(), form_mask(input), 8, 4, i) + 2 <= input.len(),
        le_value(input, prop_at(form_props(), form_mask(input), 8, 4, i), 2)
            != 0xFFFF,
    ensures
        spec_parse_form_control(input) == Err::<(FormControlModel, int), DecodeError>(
            DecodeError::at(
                ErrorKind::PlaceholderMismatch,
                RecordKind::FormControl,
                if i == 8 {
                    Field::MouseIcon
                } else if i == 13 {
                    Field::Font
                } else {
                    Field::Picture
                },
                prop_at(form_props(), form_mask(input), 8, 4, i),
            ),
        ),
{
    lemma_form_placeholders(0);
    lemma_form_rejects_bad_value(input, i);
}

/// Strict rejection of enumeration values: if an enumeration of a form
/// (entry 4, 5, 9, 10, 16 or 17) is stored, the entries in front of it decode,
/// and its byte is not a declared value, the form fails with `UnknownEnum` of
/// that byte.
pub proof fn lemma_form_unknown_enum(input: Seq<u8>, i: int)
    requires
        form_opens(input),
        i == 4 || i == 5 || i == 9 || i == 10 || i == 16 || i == 17,
        fixed_block(RecordKind::FormControl, form_props(), form_mask(input), input, 8, 4, i) is Ok,
        present(form_mask(input), form_props()[i]),
        prop_at(form_props(), form_mask(input), 8, 4, i) + 1 <= input.len(),
        form_props()[i].check matches Check::Variant(kind)
            && !variant_known(
            kind,
            input[prop_at(form_props(), form_mask(input), 8, 4, i)] as u32,
        ),
    ensures
        spec_parse_form_control(input) == Err::<(FormControlModel, int), DecodeError>(
            DecodeError::at(
                ErrorKind::UnknownEnum(
                    input[prop_at(form_props(), form_mask(input), 8, 4, i)] as u32,
                ),
                RecordKind::FormControl,
                form_props()[i].field,
                prop_at(form_props(), form_mask(input), 8, 4, i),
            ),
        ),
{
    lemma_form_enumerations(Variant::BorderStyle, 0);
    lemma_form_rejects_bad_value(input, i);
}

/// Strict rejection of enumeration values: the border style, the mouse
/// pointer, the cycle, the special effect, the picture alignment and the
/// picture size mode of a form are entries 4, 5, 9, 10, 16 and 17 of its fixed
/// block, each one byte that must be a declared value. With
/// [`lemma_form_rejects_bad_value`], any other byte in a stored slot fails the
/// form with `UnknownEnum` of that byte.
pub proof fn lemma_form_enumerations(kind: Variant, v: u32)
    ensures
        form_props()[4].check == Check::Variant(Variant::BorderStyle),
        form_props()[5].check == Check::Variant(Variant::MousePointer),
        form_props()[9].check == Check::Variant(Variant::Cycle),
        form_props()[10].check == Check::Variant(Variant::SpecialEffect),
        form_props()[16].check == Check::Variant(Variant::PictureAlignment),
        form_props()[17].check == Check::Variant(Variant::PictureSizeMode),
        check_ok(Check::Variant(kind), v)
            <==> variant_known(kind, v),
        !variant_known(kind, v) ==> check_error(
            Check::Variant(kind),
            v,
        ) == ErrorKind::UnknownEnum(v),
{
}

/// Default preservation in the fixed block of a form: raw values that are
/// the defaults of the entries whose mask bit is clear stand for the file
/// format defaults.
pub proof fn lemma_form_fixed_defaults(mask: u32, vals: Seq<u32>)
    requires
        vals.len() == 20,
        forall|i: int|
            0 <= i < 20 && !present(mask, form_props()[i]) ==> #[trigger] vals[i]
                == form_props()[i].default,
    ensures
        ({
            let form = form_fixed_of(mask, vals);
            &&& mask & FormPropMask::BACK_COLOR == 0 ==> form.back_color == OleColor::BTNFACE()
            &&& mask & FormPropMask::FORE_COLOR == 0 ==> form.fore_color == OleColor::BTNTEXT()
            &&& mask & FormPropMask::NEXT_AVAILABLE_ID == 0 ==> form.next_available_id == 0
            &&& mask & FormPropMask::BOOLEAN_PROPERTIES == 0 ==> form.boolean_properties == (FormFlags {
                bits: FormFlags::ENABLED,
            })
            &&& mask & FormPropMask::BORDER_STYLE == 0 ==> form.border_style == BorderStyle::NoBorder
            &&& mask & FormPropMask::MOUSE_POINTER == 0 ==> form.mouse_pointer == MousePointer::Default
            &&& mask & FormPropMask::SCROLL_BARS == 0 ==> form.scroll_bars == (FormScrollBarFlags {
                bits: FormScrollBarFlags::DEFAULT,
            })
            &&& mask & FormPropMask::GROUP_CNT == 0 ==> form.group_count == 0
            &&& mask & FormPropMask::CYCLE == 0 ==> form.cycle == Cycle::AllForms
            &&& mask & FormPropMask::SPECIAL_EFFECT == 0 ==> form.special_effect == SpecialEffect::Flat
            &&& mask & FormPropMask::BORDER_COLOR == 0 ==> form.border_color == OleColor::BTNTEXT()
            &&& mask & FormPropMask::ZOOM == 0 ==> form.zoom == 100
            &&& mask & FormPropMask::PICTURE_ALIGNMENT == 0 ==> form.picture_alignment
                == PictureAlignment::Center
            &&& mask & FormPropMask::PICTURE_TILING == 0 ==> !form.picture_tiling
            &&& mask & FormPropMask::PICTURE_SIZE_MODE == 0 ==> form.picture_size_mode
                == PictureSizeMode::Clip
            &&& mask & FormPropMask::SHAPE_COOKIE == 0 ==> form.shape_cookie == 0
            &&& mask & FormPropMask::DRAW_BUFFER == 0 ==> form.draw_buffer == 0
        }),
{
    let props = form_props();
    assert(props[0].bit == FormPropMask::BACK_COLOR && props[0].default == 0x8000_000F);
    assert(props[1].bit == FormPropMask::FORE_COLOR && props[1].default == 0x8000_0012);
    assert(props[2].bit == FormPropMask::NEXT_AVAILABLE_ID && props[2].default == 0);
    assert(props[3].bit == FormPropMask::BOOLEAN_PROPERTIES && props[3].default == 4);
    assert(props[4].bit == FormPropMask::BORDER_STYLE && props[4].default == 0);
    assert(props[5].bit == FormPropMask::MOUSE_POINTER && props[5].default == 0);
    assert(props[6].bit == FormPropMask::SCROLL_BARS && props[6].default == 0x0C);
    assert(props[7].bit == FormPropMask::GROUP_CNT && props[7].default == 0);
    assert(props[9].bit == FormPropMask::CYCLE && props[9].default == 0);
    assert(props[10].bit == FormPropMask::SPECIAL_EFFECT && props[10].default == 0);
    assert(props[11].bit == FormPropMask::BORDER_COLOR && props[11].default == 0x8000_0012);
    assert(props[15].bit == FormPropMask::ZOOM && props[15].default == 100);
    assert(props[16].bit == FormPropMask::PICTURE_ALIGNMENT && props[16].default == 2);
    assert(props[17].bit == FormPropMask::PICTURE_SIZE_MODE && props[17].default == 0);
    assert(props[18].bit == FormPropMask::SHAPE_COOKIE && props[18].default == 0);
    assert(props[19].bit == FormPropMask::DRAW_BUFFER && props[19].default == 0);
}

/// Default preservation behind the fixed block of a form: a size, the scroll
/// position, the caption or the font whose mask bit is clear has its file
/// format default and takes no bytes.
pub proof fn lemma_form_extra_defaults(input: Seq<u8>, pos: int, mask: u32, caption: u32)
    requires
        spec_form_extra(input, pos, mask, caption) is Ok,
    ensures
        ({
            let extra = spec_form_extra(input, pos, mask, caption)->Ok_0.0;
            let next = spec_form_extra(input, pos, mask, caption)->Ok_0.1;
            &&& mask & FormPropMask::DISPLAYED_SIZE == 0 ==> extra.displayed_size == Size::new(4000, 3000)
            &&& mask & FormPropMask::LOGICAL_SIZE == 0 ==> extra.logical_size == Size::new(4000, 3000)
            &&& mask & FormPropMask::SCROLL_POSITION == 0 ==> extra.scroll_position == Position::new(0, 0)
            &&& mask & FormPropMask::CAPTION == 0 ==> extra.caption == Seq::<char>::empty()
            &&& mask & FormPropMask::FONT == 0 ==> extra.font == GuidAndFont::spec_empty()
            &&& mask & (FormPropMask::DISPLAYED_SIZE) == 0 && mask & (FormPropMask::LOGICAL_SIZE) == 0
                && mask & (FormPropMask::SCROLL_POSITION) == 0 && mask & (FormPropMask::CAPTION) == 0
                && mask & (FormPropMask::FONT) == 0 ==> next == pos
        }),
{
}

/// Default preservation behind a fixed block: a size, a position, a string, a
/// GUID or the font whose mask bit is clear has its default and takes no bytes.
pub proof fn lemma_absent_extra_takes_default(
    record: RecordKind,
    field: Field,
    input: Seq<u8>,
    pos: int,
    raw: u32,
    size: Size,
    guid: Guid,
)
    ensures
        spec_opt_size(record, field, input, pos, false, size) == Ok::<(Size, int), DecodeError>(
            (size, pos),
        ),
        spec_opt_position(record, field, input, pos, false) == Ok::<(Position, int), DecodeError>(
            (Position::new(0, 0), pos),
        ),
        spec_opt_string(record, field, input, pos, false, raw) == Ok::<(Seq<char>, int), DecodeError>(
            (Seq::empty(), pos),
        ),
        spec_opt_guid(record, field, input, pos, false, guid) == Ok::<(Guid, int), DecodeError>(
            (guid, pos),
        ),
        spec_opt_font(input, pos, false) == Ok::<(GuidAndFontModel, int), DecodeError>(
            (GuidAndFont::spec_empty(), pos),
        ),
{
}

/// Default preservation for forms: a property whose mask bit is clear has
/// its file format default in the decoded form. The mouse icon and the
/// picture are empty in every decoded form.
pub proof fn lemma_form_defaults(input: Seq<u8>)
    requires
        spec_parse_form_control(input) is Ok,
    ensures
        ({
            let mask = form_mask(input);
            let form = spec_parse_form_control(input)->Ok_0.0;
            &&& mask & FormPropMask::BACK_COLOR == 0 ==> form.back_color == OleColor::BTNFACE()
            &&& mask & FormPropMask::FORE_COLOR == 0 ==> form.fore_color == OleColor::BTNTEXT()
            &&& mask & FormPropMask::NEXT_AVAILABLE_ID == 0 ==> form.next_available_id == 0
            &&& mask & FormPropMask::BOOLEAN_PROPERTIES == 0 ==> form.boolean_properties == (FormFlags {
                bits: FormFlags::ENABLED,
            })
            &&& mask & FormPropMask::BORDER_STYLE == 0 ==> form.border_style == BorderStyle::NoBorder
            &&& mask & FormPropMask::MOUSE_POINTER == 0 ==> form.mouse_pointer == MousePointer::Default
            &&& mask & FormPropMask::SCROLL_BARS == 0 ==> form.scroll_bars == (FormScrollBarFlags {
                bits: FormScrollBarFlags::DEFAULT,
            })
            &&& mask & FormPropMask::DISPLAYED_SIZE == 0 ==> form.displayed_size == Size::new(4000, 3000)
            &&& mask & FormPropMask::LOGICAL_SIZE == 0 ==> form.logical_size == Size::new(4000, 3000)
            &&& mask & FormPropMask::SCROLL_POSITION == 0 ==> form.scroll_position == Position::new(0, 0)
            &&& mask & FormPropMask::GROUP_CNT == 0 ==> form.group_count == 0
            &&& form.mouse_icon == GuidAndPictureModel::Empty
            &&& mask & FormPropMask::CYCLE == 0 ==> form.cycle == Cycle::AllForms
            &&& mask & FormPropMask::SPECIAL_EFFECT == 0 ==> form.special_effect == SpecialEffect::Flat
            &&& mask & FormPropMask::BORDER_COLOR == 0 ==> form.border_color == OleColor::BTNTEXT()
            &&& mask & FormPropMask::CAPTION == 0 ==> form.caption == Seq::<char>::empty()
            &&& mask & FormPropMask::FONT == 0 ==> form.font == GuidAndFont::spec_empty()
            &&& form.picture == GuidAndPictureModel::Empty
            &&& mask & FormPropMask::ZOOM == 0 ==> form.zoom == 100
            &&& mask & FormPropMask::PICTURE_ALIGNMENT == 0 ==> form.picture_alignment
                == PictureAlignment::Center
            &&& mask & FormPropMask::PICTURE_TILING == 0 ==> !form.picture_tiling
            &&& mask & FormPropMask::PICTURE_SIZE_MODE == 0 ==> form.picture_size_mode
                == PictureSizeMode::Clip
            &&& mask & FormPropMask::SHAPE_COOKIE == 0 ==> form.shape_cookie == 0
            &&& mask & FormPropMask::DRAW_BUFFER == 0 ==> form.draw_buffer == 0
        }),
{
    let rec = RecordKind::FormControl;
    let mask = form_mask(input);
    let props = form_props();
    lemma_form_props_wf();
    let vals = fixed_block(rec, props, mask, input, 8, 4, 20)->Ok_0;
    lemma_fixed_block_ok(rec, props, mask, input, 8, 4, 20);
    lemma_form_fixed_defaults(mask, vals);
    let q = spec_padding(rec, input, prop_pos(props, mask, 8, 4, 20), fixed_cursor(props, mask, 4, 20))->Ok_0;
    lemma_form_extra_defaults(input, q, mask, vals[12]);
}

/// Default preservation for class table entries: a property whose mask bit
/// is clear has its file format default in the decoded entry.
pub proof fn lemma_class_info_defaults(body: Seq<u8>)
    requires
        spec_class_info_body(body) is Ok,
    ensures
        ({
            let mask = le_value(body, 0, 4);
            let info = spec_class_info_body(body)->Ok_0;
            &&& mask & ClassInfoPropMask::CLS_ID == 0 ==> info.cls_id == Guid::nil()
            &&& mask & ClassInfoPropMask::DISP_EVENT == 0 ==> info.disp_event == IID_IDISPATCH()
            &&& mask & ClassInfoPropMask::DEFAULT_PROC == 0 ==> info.default_proc == IID_IDISPATCH()
            &&& mask & ClassInfoPropMask::CLASS_FLAGS == 0 ==> info.class_table_flags
                == ClsTableFlags::empty() && info.var_flags == VarFlags::empty()
            &&& mask & ClassInfoPropMask::COUNT_OF_METHODS == 0 ==> info.count_of_methods == 0
            &&& mask & ClassInfoPropMask::DISPID_BIND == 0 ==> info.dispid_bind == 0xFFFF_FFFF
            &&& mask & ClassInfoPropMask::GET_BIND_INDEX == 0 ==> info.get_bind_index == 0
            &&& mask & ClassInfoPropMask::PUT_BIND_INDEX == 0 ==> info.put_bind_index == 0
            &&& mask & ClassInfoPropMask::BIND_TYPE == 0 ==> info.bind_type == (VarType {
                bits: VarType::EMPTY,
            })
            &&& mask & ClassInfoPropMask::GET_VALUE_INDEX == 0 ==> info.get_value_index == 0
            &&& mask & ClassInfoPropMask::PUT_VALUE_INDEX == 0 ==> info.put_value_index == 0
            &&& mask & ClassInfoPropMask::VALUE_TYPE == 0 ==> info.value_type == (VarType {
                bits: VarType::EMPTY,
            })
            &&& mask & ClassInfoPropMask::DISPID_ROWSET == 0 ==> info.dispid_rowset == 0xFFFF_FFFF
            &&& mask & ClassInfoPropMask::SET_ROWSET == 0 ==> info.set_rowset == 0
        }),
{
    let mask = le_value(body, 0, 4);
    lemma_class_info_props_wf();
    lemma_fixed_block_ok(RecordKind::SiteClassInfo, class_info_props(), mask, body, 4, 4, 12);
}

/// Strict rejection of reserved mask bits: a class table entry whose
/// property mask has a bit that is not declared fails with `UnknownBits` of
/// the mask.
pub proof fn lemma_class_info_rejects_unknown_mask_bits(body: Seq<u8>)
    requires
        body.len() >= 4,
        le_value(body, 0, 4) & !ClassInfoPropMask::ALL != 0,
    ensures
        spec_class_info_body(body) == Err::<SiteClassInfo, DecodeError>(
            DecodeError::at(
                ErrorKind::UnknownBits(le_value(body, 0, 4)),
                RecordKind::SiteClassInfo,
                Field::PropMask,
                0,
            ),
        ),
{
}

} // verus!
