//! Decoding of fonts.
use vstd::prelude::*;
use crate::common::parser::{
    decoded_view, le_i16, le_u16, le_u32, le_u8, le_value, read_as, read_as_view, read_guid,
    rest_of, signed16, spec_guid,
};
use crate::common::{Guid, CLSID_DT_DDSFORM_21_FONT_NEW, CLSID_STD_FONT, CLSID_TEXT_PROPS};
use crate::error::{DecodeError, ErrorKind, Field, RecordKind};
use crate::properties::font::{
    DdsForm21FontNew, FontFlags, FormFont, FormFontModel, GuidAndFont, GuidAndFontModel, StdFont,
    StdFontModel, TextProps,
};
use crate::properties::string::parser::{is_ascii_bytes, latin1_chars, read_ascii};

verus! {

/// The greatest height of a standard font, in ten-thousandths of a point.
pub const MAX_FONT_HEIGHT: u32 = 655_350_000;

/// The greatest weight of a standard font.
pub const MAX_FONT_WEIGHT: i16 = 1000;

/// The name of a standard font has fewer bytes than this.
pub const FONT_FACE_LIMIT: u8 = 32;

/// The standard font at `pos`, in file order: the version byte `1`, the
/// character set, the flags, the weight, the height, and the name with its
/// length in front. Each field fails where it stands: the first failure in
/// file order is the one reported.
pub open spec fn spec_std_font(input: Seq<u8>, pos: int) -> Result<(StdFontModel, int), DecodeError> {
    let rec = RecordKind::StdFont;
    let weight = signed16(le_value(input, pos + 4, 2));
    let height = le_value(input, pos + 6, 4);
    let n = input[pos + 10];
    if pos + 1 > input.len() {
        Err(DecodeError::at(ErrorKind::Truncated, rec, Field::Version, pos))
    } else if input[pos] != 1 {
        Err(DecodeError::at(ErrorKind::BadMagic, rec, Field::Version, pos))
    } else if pos + 3 > input.len() {
        Err(DecodeError::at(ErrorKind::Truncated, rec, Field::Charset, pos + 1))
    } else if pos + 4 > input.len() {
        Err(DecodeError::at(ErrorKind::Truncated, rec, Field::FontFlags, pos + 3))
    } else if input[pos + 3] & !FontFlags::ALL != 0 {
        Err(DecodeError::at(ErrorKind::UnknownBits(input[pos + 3] as u32), rec, Field::FontFlags, pos + 3))
    } else if pos + 6 > input.len() {
        Err(DecodeError::at(ErrorKind::Truncated, rec, Field::Weight, pos + 4))
    } else if !(0 <= weight <= MAX_FONT_WEIGHT) {
        Err(DecodeError::at(ErrorKind::ConstraintViolation, rec, Field::Weight, pos + 4))
    } else if pos + 10 > input.len() {
        Err(DecodeError::at(ErrorKind::Truncated, rec, Field::Height, pos + 6))
    } else if height == 0 || height > MAX_FONT_HEIGHT {
        Err(DecodeError::at(ErrorKind::ConstraintViolation, rec, Field::Height, pos + 6))
    } else if pos + 11 > input.len() {
        Err(DecodeError::at(ErrorKind::Truncated, rec, Field::FaceLength, pos + 10))
    } else if n >= FONT_FACE_LIMIT {
        Err(DecodeError::at(ErrorKind::ConstraintViolation, rec, Field::FaceLength, pos + 10))
    } else if pos + 11 + n > input.len() {
        Err(DecodeError::at(ErrorKind::Truncated, rec, Field::FontFace, pos + 11))
    } else if !is_ascii_bytes(input.subrange(pos + 11, pos + 11 + n)) {
        Err(DecodeError::at(ErrorKind::ConstraintViolation, rec, Field::FontFace, pos + 11))
    } else {
        Ok(
            (
                StdFontModel {
                    charset: signed16(le_value(input, pos + 1, 2)) as i16,
                    flags: FontFlags { bits: input[pos + 3] },
                    weight: weight as i16,
                    height,
                    font_face: latin1_chars(input.subrange(pos + 11, pos + 11 + n)),
                },
                pos + 11 + n,
            ),
        )
    }
}

/// A standard font that decodes meets the constraints of the format.
pub proof fn lemma_std_font_wf(input: Seq<u8>, pos: int)
    requires
        0 <= pos,
        spec_std_font(input, pos) is Ok,
    ensures
        spec_std_font(input, pos)->Ok_0.0.wf(),
{
    let font = spec_std_font(input, pos)->Ok_0.0;
    let n = input[pos + 10];
    let bytes = input.subrange(pos + 11, pos + 11 + n);
    assert forall|i: int| 0 <= i < font.font_face.len() implies (font.font_face[i] as u32) < 0x80 by {
        assert(bytes[i] < 0x80);
    }
}

/// Reads the standard font at `pos`.
pub fn read_std_font(input: &[u8], pos: usize) -> (r: Result<(StdFont, usize), DecodeError>)
    requires
        pos <= input@.len(),
    ensures
        read_as_view(r, input@, spec_std_font(input@, pos as int)),
        r matches Ok((font, _)) ==> font@.wf(),
{
    proof {
        if spec_std_font(input@, pos as int) is Ok {
            lemma_std_font_wf(input@, pos as int);
        }
    }
    let record = RecordKind::StdFont;
    let len = input.len();
    match le_u8(input, pos) {
        None => {
            return Err(DecodeError { kind: ErrorKind::Truncated, record, field: Field::Version, offset: pos });
        },
        Some(version) => {
            if version != 1 {
                return Err(
                    DecodeError { kind: ErrorKind::BadMagic, record, field: Field::Version, offset: pos },
                );
            }
        },
    }
    let charset = match le_i16(input, pos + 1) {
        Some(v) => v,
        None => {
            return Err(
                DecodeError { kind: ErrorKind::Truncated, record, field: Field::Charset, offset: pos + 1 },
            );
        },
    };
    let flags = match le_u8(input, pos + 3) {
        None => {
            return Err(
                DecodeError { kind: ErrorKind::Truncated, record, field: Field::FontFlags, offset: pos + 3 },
            );
        },
        Some(bits) => match FontFlags::from_bits(bits) {
            Some(flags) => flags,
            None => {
                return Err(
                    DecodeError {
                        kind: ErrorKind::UnknownBits(bits as u32),
                        record,
                        field: Field::FontFlags,
                        offset: pos + 3,
                    },
                );
            },
        },
    };
    let weight = match le_i16(input, pos + 4) {
        Some(v) => v,
        None => {
            return Err(
                DecodeError { kind: ErrorKind::Truncated, record, field: Field::Weight, offset: pos + 4 },
            );
        },
    };
    if weight < 0 || weight > MAX_FONT_WEIGHT {
        return Err(
            DecodeError {
                kind: ErrorKind::ConstraintViolation,
                record,
                field: Field::Weight,
                offset: pos + 4,
            },
        );
    }
    let height = match le_u32(input, pos + 6) {
        Some(v) => v,
        None => {
            return Err(
                DecodeError { kind: ErrorKind::Truncated, record, field: Field::Height, offset: pos + 6 },
            );
        },
    };
    if height == 0 || height > MAX_FONT_HEIGHT {
        return Err(
            DecodeError {
                kind: ErrorKind::ConstraintViolation,
                record,
                field: Field::Height,
                offset: pos + 6,
            },
        );
    }
    let n = match le_u8(input, pos + 10) {
        Some(v) => v,
        None => {
            return Err(
                DecodeError {
                    kind: ErrorKind::Truncated,
                    record,
                    field: Field::FaceLength,
                    offset: pos + 10,
                },
            );
        },
    };
    if n >= FONT_FACE_LIMIT {
        return Err(
            DecodeError {
                kind: ErrorKind::ConstraintViolation,
                record,
                field: Field::FaceLength,
                offset: pos + 10,
            },
        );
    }
    let at = pos + 11;
    if len - at < n as usize {
        return Err(DecodeError { kind: ErrorKind::Truncated, record, field: Field::FontFace, offset: at });
    }
    match read_ascii(input, at, n as usize) {
        Some(font_face) => Ok((StdFont { charset, flags, weight, height, font_face }, at + n as usize)),
        None => Err(
            DecodeError { kind: ErrorKind::ConstraintViolation, record, field: Field::FontFace, offset: at },
        ),
    }
}

/// A standard font at the start of `input`.
pub open spec fn spec_parse_std_font(input: Seq<u8>) -> Result<(StdFontModel, int), DecodeError> {
    spec_std_font(input, 0)
}

/// Decodes a standard font from the start of `input`.
pub fn parse_std_font<'a>(input: &'a [u8]) -> (r: Result<(&'a [u8], StdFont), DecodeError>)
    ensures
        decoded_view(r, input@, spec_parse_std_font(input@)),
        r matches Ok((_, font)) ==> font@.wf(),
{
    let (font, next) = read_std_font(input, 0)?;
    Ok((rest_of(input, next), font))
}

/// The "DDSform 2.1 FontNew" payload at `pos`: version `0.0`, the byte count
/// `8`, and two words.
pub open spec fn spec_dds_form21_font_new(input: Seq<u8>, pos: int) -> Result<
    (DdsForm21FontNew, int),
    DecodeError,
> {
    let rec = RecordKind::DdsForm21FontNew;
    if pos + 2 > input.len() {
        Err(DecodeError::at(ErrorKind::Truncated, rec, Field::Version, pos))
    } else if input[pos] != 0 || input[pos + 1] != 0 {
        Err(DecodeError::at(ErrorKind::BadMagic, rec, Field::Version, pos))
    } else if pos + 4 > input.len() {
        Err(DecodeError::at(ErrorKind::Truncated, rec, Field::ByteCount, pos + 2))
    } else if le_value(input, pos + 2, 2) != 8 {
        Err(DecodeError::at(ErrorKind::ConstraintViolation, rec, Field::ByteCount, pos + 2))
    } else if pos + 12 > input.len() {
        Err(DecodeError::at(ErrorKind::Truncated, rec, Field::Data, pos + 4))
    } else {
        Ok(
            (
                DdsForm21FontNew { d1: le_value(input, pos + 4, 4), d2: le_value(input, pos + 8, 4) },
                pos + 12,
            ),
        )
    }
}

/// Reads the "DDSform 2.1 FontNew" payload at `pos`.
pub fn read_dds_form21_font_new(input: &[u8], pos: usize) -> (r: Result<
    (DdsForm21FontNew, usize),
    DecodeError,
>)
    requires
        pos <= input@.len(),
    ensures
        read_as(r, input@, spec_dds_form21_font_new(input@, pos as int)),
{
    let record = RecordKind::DdsForm21FontNew;
    let len = input.len();
    if len - pos < 2 {
        return Err(DecodeError { kind: ErrorKind::Truncated, record, field: Field::Version, offset: pos });
    }
    if input[pos] != 0 || input[pos + 1] != 0 {
        return Err(DecodeError { kind: ErrorKind::BadMagic, record, field: Field::Version, offset: pos });
    }
    match le_u16(input, pos + 2) {
        None => {
            return Err(
                DecodeError { kind: ErrorKind::Truncated, record, field: Field::ByteCount, offset: pos + 2 },
            );
        },
        Some(count) => {
            if count != 8 {
                return Err(
                    DecodeError {
                        kind: ErrorKind::ConstraintViolation,
                        record,
                        field: Field::ByteCount,
                        offset: pos + 2,
                    },
                );
            }
        },
    }
    if len - pos < 12 {
        return Err(DecodeError { kind: ErrorKind::Truncated, record, field: Field::Data, offset: pos + 4 });
    }
    let d1 = le_u32(input, pos + 4).unwrap();
    let d2 = le_u32(input, pos + 8).unwrap();
    Ok((DdsForm21FontNew { d1, d2 }, pos + 12))
}

/// The font at `pos`: a GUID, then the payload that the GUID chooses. The
/// nil GUID and the class of text properties have no payload that this
/// decoder reads; a GUID of no known font class is `UnknownGuid`.
pub open spec fn spec_guid_and_font(input: Seq<u8>, pos: int) -> Result<
    (GuidAndFontModel, int),
    DecodeError,
> {
    if pos + 16 > input.len() {
        Err(DecodeError::at(ErrorKind::Truncated, RecordKind::GuidAndFont, Field::Guid, pos))
    } else {
        let guid = spec_guid(input, pos);
        if guid == CLSID_DT_DDSFORM_21_FONT_NEW() {
            match spec_dds_form21_font_new(input, pos + 16) {
                Ok((f, next)) => Ok(
                    (GuidAndFontModel { guid, font: FormFontModel::DdsForm21FontNew(f) }, next),
                ),
                Err(e) => Err(e),
            }
        } else if guid == CLSID_STD_FONT() {
            match spec_std_font(input, pos + 16) {
                Ok((f, next)) => Ok((GuidAndFontModel { guid, font: FormFontModel::StdFont(f) }, next)),
                Err(e) => Err(e),
            }
        } else if guid == CLSID_TEXT_PROPS() {
            Ok((GuidAndFontModel { guid, font: FormFontModel::TextProps(TextProps {  }) }, pos + 16))
        } else if guid == Guid::nil() {
            Ok((GuidAndFontModel { guid, font: FormFontModel::Empty }, pos + 16))
        } else {
            Err(DecodeError::at(ErrorKind::UnknownGuid, RecordKind::GuidAndFont, Field::Guid, pos))
        }
    }
}

/// Reads the font at `pos`.
pub fn read_guid_and_font(input: &[u8], pos: usize) -> (r: Result<(GuidAndFont, usize), DecodeError>)
    requires
        pos <= input@.len(),
    ensures
        read_as_view(r, input@, spec_guid_and_font(input@, pos as int)),
{
    let len = input.len();
    let guid = match read_guid(input, pos) {
        Some(g) => g,
        None => {
            return Err(
                DecodeError {
                    kind: ErrorKind::Truncated,
                    record: RecordKind::GuidAndFont,
                    field: Field::Guid,
                    offset: pos,
                },
            );
        },
    };
    let at = pos + 16;
    if guid == CLSID_DT_DDSFORM_21_FONT_NEW() {
        let (f, next) = read_dds_form21_font_new(input, at)?;
        Ok((GuidAndFont { guid, font: FormFont::DdsForm21FontNew(f) }, next))
    } else if guid == CLSID_STD_FONT() {
        let (f, next) = read_std_font(input, at)?;
        Ok((GuidAndFont { guid, font: FormFont::StdFont(f) }, next))
    } else if guid == CLSID_TEXT_PROPS() {
        Ok((GuidAndFont { guid, font: FormFont::TextProps(TextProps {  }) }, at))
    } else if guid == Guid::nil() {
        Ok((GuidAndFont { guid, font: FormFont::Empty }, at))
    } else {
        Err(
            DecodeError {
                kind: ErrorKind::UnknownGuid,
                record: RecordKind::GuidAndFont,
                field: Field::Guid,
                offset: pos,
            },
        )
    }
}

/// A font at the start of `input`.
pub open spec fn spec_parse_guid_and_font(input: Seq<u8>) -> Result<
    (GuidAndFontModel, int),
    DecodeError,
> {
    spec_guid_and_font(input, 0)
}

/// Decodes a font from the start of `input`.
pub fn parse_guid_and_font<'a>(input: &'a [u8]) -> (r: Result<(&'a [u8], GuidAndFont), DecodeError>)
    ensures
        decoded_view(r, input@, spec_parse_guid_and_font(input@)),
{
    let (font, next) = read_guid_and_font(input, 0)?;
    Ok((rest_of(input, next), font))
}

} // verus!
