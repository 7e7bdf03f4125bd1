//! Decoding of sizes and positions.
use vstd::prelude::*;
use crate::common::parser::{decoded, le_i32, le_u32, le_value, rest_of, signed32};
use crate::error::{DecodeError, ErrorKind, Field, RecordKind};
use crate::properties::{Position, Size};

verus! {

/// The size in the eight bytes of `input` at `pos`: width, then height.
pub open spec fn spec_size(input: Seq<u8>, pos: int) -> Size {
    Size { width: le_value(input, pos, 4), height: le_value(input, pos + 4, 4) }
}

/// The position in the eight bytes of `input` at `pos`: left, then top.
pub open spec fn spec_position(input: Seq<u8>, pos: int) -> Position {
    Position {
        left: signed32(le_value(input, pos, 4)) as i32,
        top: signed32(le_value(input, pos + 4, 4)) as i32,
    }
}

/// Reads a size at `pos`. `None` exactly when fewer than eight bytes are left.
pub fn read_size(input: &[u8], pos: usize) -> (r: Option<Size>)
    requires
        pos <= input@.len(),
    ensures
        r == (if pos + 8 <= input@.len() {
            Some(spec_size(input@, pos as int))
        } else {
            None
        }),
{
    if input.len() - pos < 8 {
        return None;
    }
    let width = le_u32(input, pos).unwrap();
    let height = le_u32(input, pos + 4).unwrap();
    Some(Size { width, height })
}

/// Reads a position at `pos`. `None` exactly when fewer than eight bytes are left.
pub fn read_position(input: &[u8], pos: usize) -> (r: Option<Position>)
    requires
        pos <= input@.len(),
    ensures
        r == (if pos + 8 <= input@.len() {
            Some(spec_position(input@, pos as int))
        } else {
            None
        }),
{
    if input.len() - pos < 8 {
        return None;
    }
    let left = le_i32(input, pos).unwrap();
    let top = le_i32(input, pos + 4).unwrap();
    Some(Position { left, top })
}

impl Size {
    /// A size at the start of `input`.
    pub open spec fn spec_parse(input: Seq<u8>) -> Result<(Size, int), DecodeError> {
        if input.len() < 8 {
            Err(DecodeError::at(ErrorKind::Truncated, RecordKind::Size, Field::Value, 0))
        } else {
            Ok((spec_size(input, 0), 8))
        }
    }

    /// Decodes a size from the first eight bytes of `input`.
    pub fn parse<'a>(input: &'a [u8]) -> (r: Result<(&'a [u8], Size), DecodeError>)
        ensures
            decoded(r, input@, Size::spec_parse(input@)),
    {
        match read_size(input, 0) {
            Some(size) => Ok((rest_of(input, 8), size)),
            None => Err(
                DecodeError {
                    kind: ErrorKind::Truncated,
                    record: RecordKind::Size,
                    field: Field::Value,
                    offset: 0,
                },
            ),
        }
    }
}

impl Position {
    /// A position at the start of `input`.
    pub open spec fn spec_parse(input: Seq<u8>) -> Result<(Position, int), DecodeError> {
        if input.len() < 8 {
            Err(DecodeError::at(ErrorKind::Truncated, RecordKind::Position, Field::Value, 0))
        } else {
            Ok((spec_position(input, 0), 8))
        }
    }

    /// Decodes a position from the first eight bytes of `input`.
    pub fn parse<'a>(input: &'a [u8]) -> (r: Result<(&'a [u8], Position), DecodeError>)
        ensures
            decoded(r, input@, Position::spec_parse(input@)),
    {
        match read_position(input, 0) {
            Some(position) => Ok((rest_of(input, 8), position)),
            None => Err(
                DecodeError {
                    kind: ErrorKind::Truncated,
                    record: RecordKind::Position,
                    field: Field::Value,
                    offset: 0,
                },
            ),
        }
    }
}

} // verus!
