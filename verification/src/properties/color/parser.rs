//! Decoding of OLE colors.
use vstd::prelude::*;
use crate::common::parser::{decoded, le_u32, le_value, pad_len, rest_of, AlignedParser};
use crate::common::props::color_tag;
use crate::error::{DecodeError, ErrorKind, Field, RecordKind};
use crate::properties::color::OleColor;

verus! {

/// An OLE color in the first four bytes of `input`.
pub open spec fn spec_parse_ole_color(input: Seq<u8>) -> Result<(OleColor, int), DecodeError> {
    if input.len() < 4 {
        Err(DecodeError::at(ErrorKind::Truncated, RecordKind::OleColor, Field::Value, 0))
    } else {
        match OleColor::spec_from_u32(le_value(input, 0, 4)) {
            Some(c) => Ok((c, 4)),
            None => Err(
                DecodeError::at(
                    ErrorKind::UnknownEnum(color_tag(le_value(input, 0, 4))),
                    RecordKind::OleColor,
                    Field::Value,
                    0,
                ),
            ),
        }
    }
}

/// Decodes an OLE color from the first four bytes of `input`.
pub fn parse_ole_color<'a>(input: &'a [u8]) -> (r: Result<(&'a [u8], OleColor), DecodeError>)
    ensures
        decoded(r, input@, spec_parse_ole_color(input@)),
{
    match le_u32(input, 0) {
        None => Err(
            DecodeError {
                kind: ErrorKind::Truncated,
                record: RecordKind::OleColor,
                field: Field::Value,
                offset: 0,
            },
        ),
        Some(word) => match OleColor::from_u32(word) {
            Some(c) => Ok((rest_of(input, 4), c)),
            None => Err(
                DecodeError {
                    kind: ErrorKind::UnknownEnum(word / 0x100_0000),
                    record: RecordKind::OleColor,
                    field: Field::Value,
                    offset: 0,
                },
            ),
        },
    }
}

/// What [`AlignedParser::ole_color`] yields with the cursor at `cursor` and
/// the reader at `pos`: the color and the position behind it, or the cause of
/// the failure.
pub open spec fn spec_aligned_ole_color(input: Seq<u8>, cursor: int, pos: int) -> Result<
    (OleColor, int),
    ErrorKind,
> {
    let at = pos + pad_len(cursor, 4);
    if at + 4 > input.len() {
        Err(ErrorKind::Truncated)
    } else {
        match OleColor::spec_from_u32(le_value(input, at, 4)) {
            Some(c) => Ok((c, at + 4)),
            None => Err(ErrorKind::UnknownEnum(color_tag(le_value(input, at, 4)))),
        }
    }
}

impl AlignedParser {
    /// Pads to 4 and reads an OLE color. On failure the cursor is unchanged.
    pub fn ole_color(&mut self, input: &[u8], pos: usize) -> (r: Result<(OleColor, usize), ErrorKind>)
        requires
            old(self).cursor <= pos <= input@.len(),
        ensures
            match spec_aligned_ole_color(input@, old(self).cursor as int, pos as int) {
                Ok((c, next)) => r matches Ok((v, p)) && v == c && p == next && final(self).cursor
                    == old(self).cursor + pad_len(old(self).cursor as int, 4) + 4,
                Err(kind) => r == Err::<(OleColor, usize), ErrorKind>(kind) && final(self).cursor
                    == old(self).cursor,
            },
    {
        let mut probe = *self;
        match probe.le_u32(input, pos) {
            None => Err(ErrorKind::Truncated),
            Some((word, next)) => match OleColor::from_u32(word) {
                Some(c) => {
                    *self = probe;
                    Ok((c, next))
                },
                None => Err(ErrorKind::UnknownEnum(word / 0x100_0000)),
            },
        }
    }
}

} // verus!
