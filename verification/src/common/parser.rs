//! Primitive readers and the logical alignment cursor.
//!
//! Every reader works on a byte slice and a position in it. Fields of 2 and 4
//! bytes sit at their natural alignment, which is counted on a logical cursor
//! that is kept apart from the position: a record starts its cursor at zero
//! wherever in the input it begins.
use vstd::prelude::*;
use vstd::slice::slice_subrange;
use crate::common::{
    ClipboardFormat, ClipboardFormatModel, CompObj, CompObjHeader, CompObjModel, Guid,
};
use crate::error::{DecodeError, ErrorKind, Field, RecordKind};

verus! {

/// The number of padding bytes that bring a cursor to a multiple of `align`.
pub open spec fn pad_len(cursor: int, align: int) -> int {
    (align - cursor % align) % align
}

/// The little-endian value of the `width` bytes of `input` that start at `at`,
/// for a width of 1, 2 or 4.
pub open spec fn le_value(input: Seq<u8>, at: int, width: int) -> u32 {
    if width == 1 {
        input[at] as u32
    } else if width == 2 {
        (input[at] + 0x100 * input[at + 1]) as u32
    } else {
        (input[at] + 0x100 * input[at + 1] + 0x1_0000 * input[at + 2] + 0x100_0000 * input[at + 3]) as u32
    }
}

/// The 16-bit two's complement reading of a 16-bit word.
pub open spec fn signed16(raw: u32) -> int {
    if raw < 0x8000 {
        raw as int
    } else {
        raw - 0x1_0000
    }
}

/// The 32-bit two's complement reading of a 32-bit word.
pub open spec fn signed32(raw: u32) -> int {
    if raw < 0x8000_0000 {
        raw as int
    } else {
        raw - 0x1_0000_0000
    }
}

/// Reads a 16-bit word as a signed integer.
pub fn to_i16(raw: u32) -> (r: i16)
    requires
        raw <= 0xFFFF,
    ensures
        r == signed16(raw),
{
    if raw < 0x8000 {
        raw as i16
    } else {
        (raw as i32 - 0x1_0000) as i16
    }
}

/// Reads a 32-bit word as a signed integer.
pub fn to_i32(raw: u32) -> (r: i32)
    ensures
        r == signed32(raw),
{
    if raw < 0x8000_0000 {
        raw as i32
    } else {
        (raw as i64 - 0x1_0000_0000) as i32
    }
}

/// Whether `width` is one of the field widths of the format.
pub open spec fn is_width(width: int) -> bool {
    width == 1 || width == 2 || width == 4
}

/// Reads `width` bytes at `pos` as a little-endian integer, without alignment.
/// `None` exactly when fewer than `width` bytes are left.
pub fn le_bytes(input: &[u8], pos: usize, width: usize) -> (r: Option<u32>)
    requires
        is_width(width as int),
        pos <= input@.len(),
    ensures
        r == (if pos + width <= input@.len() {
            Some(le_value(input@, pos as int, width as int))
        } else {
            None
        }),
{
    if input.len() - pos < width {
        return None;
    }
    let b0: u32 = input[pos] as u32;
    if width == 1 {
        return Some(b0);
    }
    let b1: u32 = input[pos + 1] as u32;
    if width == 2 {
        return Some(b0 + 0x100 * b1);
    }
    let b2: u32 = input[pos + 2] as u32;
    let b3: u32 = input[pos + 3] as u32;
    Some(b0 + 0x100 * b1 + 0x1_0000 * b2 + 0x100_0000 * b3)
}

/// Reads one byte at `pos`.
pub fn le_u8(input: &[u8], pos: usize) -> (r: Option<u8>)
    requires
        pos <= input@.len(),
    ensures
        r == (if pos < input@.len() {
            Some(input@[pos as int])
        } else {
            None
        }),
{
    if pos < input.len() {
        Some(input[pos])
    } else {
        None
    }
}

/// Reads an unaligned little-endian `u16` at `pos`.
pub fn le_u16(input: &[u8], pos: usize) -> (r: Option<u16>)
    requires
        pos <= input@.len(),
    ensures
        r == (if pos + 2 <= input@.len() {
            Some(le_value(input@, pos as int, 2) as u16)
        } else {
            None
        }),
        r matches Some(v) ==> v == le_value(input@, pos as int, 2),
{
    match le_bytes(input, pos, 2) {
        Some(v) => Some(v as u16),
        None => None,
    }
}

/// Reads an unaligned little-endian `u32` at `pos`.
pub fn le_u32(input: &[u8], pos: usize) -> (r: Option<u32>)
    requires
        pos <= input@.len(),
    ensures
        r == (if pos + 4 <= input@.len() {
            Some(le_value(input@, pos as int, 4))
        } else {
            None
        }),
{
    le_bytes(input, pos, 4)
}

/// Reads an unaligned little-endian `i16` at `pos`.
pub fn le_i16(input: &[u8], pos: usize) -> (r: Option<i16>)
    requires
        pos <= input@.len(),
    ensures
        r.is_some() == (pos + 2 <= input@.len()),
        r matches Some(v) ==> v == signed16(le_value(input@, pos as int, 2)),
{
    match le_bytes(input, pos, 2) {
        Some(v) => Some(to_i16(v)),
        None => None,
    }
}

/// Reads an unaligned little-endian `i32` at `pos`.
pub fn le_i32(input: &[u8], pos: usize) -> (r: Option<i32>)
    requires
        pos <= input@.len(),
    ensures
        r.is_some() == (pos + 4 <= input@.len()),
        r matches Some(v) ==> v == signed32(le_value(input@, pos as int, 4)),
{
    match le_bytes(input, pos, 4) {
        Some(v) => Some(to_i32(v)),
        None => None,
    }
}

/// The part of `input` from `pos` to its end.
pub fn rest_of<'a>(input: &'a [u8], pos: usize) -> (rest: &'a [u8])
    requires
        pos <= input@.len(),
    ensures
        rest@ == input@.skip(pos as int),
{
    let rest = slice_subrange(input, pos, input.len());
    assert(input@.subrange(pos as int, input@.len() as int) == input@.skip(pos as int));
    rest
}

/// The logical alignment cursor of one record.
///
/// It counts the bytes of the record that the aligned readers have passed and
/// serves only to compute padding. It never runs ahead of the position in the
/// input, which is what keeps its arithmetic in range.
#[derive(Clone, Copy, Debug, PartialEq, Eq, Structural)]
pub struct AlignedParser {
    pub cursor: usize,
}

impl AlignedParser {
    /// A cursor at zero.
    pub fn new() -> (ap: AlignedParser)
        ensures
            ap.cursor == 0,
    {
        AlignedParser { cursor: 0 }
    }

    /// Advances the cursor by `by` bytes that were read without the aligned readers.
    pub fn inc(&mut self, by: usize)
        requires
            old(self).cursor + by <= usize::MAX,
        ensures
            final(self).cursor == old(self).cursor + by,
    {
        self.cursor = self.cursor + by;
    }

    /// Skips the padding that brings the cursor to a multiple of `align` and
    /// returns the position behind it. `None`, with the cursor unchanged, exactly
    /// when the input ends inside the padding.
    pub fn align(&mut self, input: &[u8], pos: usize, align: usize) -> (r: Option<usize>)
        requires
            is_width(align as int),
            old(self).cursor <= pos <= input@.len(),
        ensures
            r == (if pos + pad_len(old(self).cursor as int, align as int) <= input@.len() {
                Some((pos + pad_len(old(self).cursor as int, align as int)) as usize)
            } else {
                None
            }),
            final(self).cursor == (if r.is_some() {
                old(self).cursor + pad_len(old(self).cursor as int, align as int)
            } else {
                old(self).cursor as int
            }),
    {
        let offset = self.cursor % align;
        let pad: usize = if offset == 0 { 0 } else { align - offset };
        assert(pad == pad_len(self.cursor as int, align as int));
        if input.len() - pos < pad {
            return None;
        }
        self.cursor = self.cursor + pad;
        Some(pos + pad)
    }

    /// Pads to `width`, then reads `width` bytes as a little-endian integer.
    /// Returns the value and the position behind it. `None`, with the cursor
    /// unchanged, exactly when the input ends before the end of the value.
    pub fn read(&mut self, input: &[u8], pos: usize, width: usize) -> (r: Option<(u32, usize)>)
        requires
            is_width(width as int),
            old(self).cursor <= pos <= input@.len(),
        ensures
            match r {
                Some((v, p)) => spec_aligned_read(
                    input@,
                    old(self).cursor as int,
                    pos as int,
                    width as int,
                ) == Some((v, p as int)),
                None => spec_aligned_read(
                    input@,
                    old(self).cursor as int,
                    pos as int,
                    width as int,
                ).is_none(),
            },
            final(self).cursor == (if r.is_some() {
                old(self).cursor + pad_len(old(self).cursor as int, width as int) + width
            } else {
                old(self).cursor as int
            }),
            r matches Some((v, p)) ==> final(self).cursor <= p <= input@.len(),
    {
        let offset = self.cursor % width;
        let pad: usize = if offset == 0 { 0 } else { width - offset };
        assert(pad == pad_len(self.cursor as int, width as int));
        if input.len() - pos < pad || input.len() - pos - pad < width {
            return None;
        }
        let at = pos + pad;
        match le_bytes(input, at, width) {
            Some(v) => {
                self.cursor = self.cursor + pad + width;
                Some((v, at + width))
            },
            None => None,
        }
    }

    /// An aligned `u32`.
    pub fn le_u32(&mut self, input: &[u8], pos: usize) -> (r: Option<(u32, usize)>)
        requires
            old(self).cursor <= pos <= input@.len(),
        ensures
            match r {
                Some((v, p)) => spec_aligned_read(input@, old(self).cursor as int, pos as int, 4)
                    == Some((v, p as int)),
                None => spec_aligned_read(input@, old(self).cursor as int, pos as int, 4).is_none(),
            },
            final(self).cursor == (if r.is_some() {
                old(self).cursor + pad_len(old(self).cursor as int, 4) + 4
            } else {
                old(self).cursor as int
            }),
    {
        self.read(input, pos, 4)
    }

    /// An aligned `i32`.
    pub fn le_i32(&mut self, input: &[u8], pos: usize) -> (r: Option<(i32, usize)>)
        requires
            old(self).cursor <= pos <= input@.len(),
        ensures
            match spec_aligned_read(input@, old(self).cursor as int, pos as int, 4) {
                Some((v, p)) => r matches Some((w, q)) && w == signed32(v) && q == p,
                None => r.is_none(),
            },
            final(self).cursor == (if r.is_some() {
                old(self).cursor + pad_len(old(self).cursor as int, 4) + 4
            } else {
                old(self).cursor as int
            }),
    {
        match self.read(input, pos, 4) {
            Some((v, p)) => Some((to_i32(v), p)),
            None => None,
        }
    }

    /// An aligned `u16`.
    pub fn le_u16(&mut self, input: &[u8], pos: usize) -> (r: Option<(u16, usize)>)
        requires
            old(self).cursor <= pos <= input@.len(),
        ensures
            match spec_aligned_read(input@, old(self).cursor as int, pos as int, 2) {
                Some((v, p)) => r matches Some((w, q)) && w == v && q == p,
                None => r.is_none(),
            },
            final(self).cursor == (if r.is_some() {
                old(self).cursor + pad_len(old(self).cursor as int, 2) + 2
            } else {
                old(self).cursor as int
            }),
    {
        match self.read(input, pos, 2) {
            Some((v, p)) => Some((v as u16, p)),
            None => None,
        }
    }

    /// An aligned `i16`.
    pub fn le_i16(&mut self, input: &[u8], pos: usize) -> (r: Option<(i16, usize)>)
        requires
            old(self).cursor <= pos <= input@.len(),
        ensures
            match spec_aligned_read(input@, old(self).cursor as int, pos as int, 2) {
                Some((v, p)) => r matches Some((w, q)) && w == signed16(v) && q == p,
                None => r.is_none(),
            },
            final(self).cursor == (if r.is_some() {
                old(self).cursor + pad_len(old(self).cursor as int, 2) + 2
            } else {
                old(self).cursor as int
            }),
    {
        match self.read(input, pos, 2) {
            Some((v, p)) => Some((to_i16(v), p)),
            None => None,
        }
    }

    /// A single byte; bytes need no padding.
    pub fn le_u8(&mut self, input: &[u8], pos: usize) -> (r: Option<(u8, usize)>)
        requires
            old(self).cursor <= pos <= input@.len(),
        ensures
            match spec_aligned_read(input@, old(self).cursor as int, pos as int, 1) {
                Some((v, p)) => r matches Some((w, q)) && w == v && q == p,
                None => r.is_none(),
            },
            final(self).cursor == (if r.is_some() {
                old(self).cursor + 1
            } else {
                old(self).cursor as int
            }),
    {
        match self.read(input, pos, 1) {
            Some((v, p)) => Some((v as u8, p)),
            None => None,
        }
    }
}

impl AlignedParser {
    /// Reads a flag set of `width` bytes: pads, reads the word, and hands it
    /// to `from_bits`, which says whether every bit of it is declared. A word
    /// that `from_bits` refuses fails with `UnknownBits` of the word. On
    /// failure the cursor is unchanged.
    pub fn bitfield<C, F: Fn(u32) -> Option<C>>(
        &mut self,
        input: &[u8],
        pos: usize,
        width: usize,
        from_bits: F,
    ) -> (r: Result<(C, usize), ErrorKind>)
        requires
            is_width(width as int),
            old(self).cursor <= pos <= input@.len(),
            forall|word: u32| from_bits.requires((word,)),
        ensures
            match spec_aligned_read(input@, old(self).cursor as int, pos as int, width as int) {
                None => r == Err::<(C, usize), ErrorKind>(ErrorKind::Truncated),
                Some((word, next)) => match r {
                    Ok((flags, p)) => from_bits.ensures((word,), Some(flags)) && p == next,
                    Err(kind) => from_bits.ensures((word,), None) && kind == ErrorKind::UnknownBits(
                        word,
                    ),
                },
            },
            final(self).cursor == (if r.is_ok() {
                old(self).cursor + pad_len(old(self).cursor as int, width as int) + width
            } else {
                old(self).cursor as int
            }),
    {
        let mut probe = *self;
        match probe.read(input, pos, width) {
            None => Err(ErrorKind::Truncated),
            Some((word, next)) => match from_bits(word) {
                Some(flags) => {
                    *self = probe;
                    Ok((flags, next))
                },
                None => Err(ErrorKind::UnknownBits(word)),
            },
        }
    }

    /// Reads an enumeration of `width` bytes: pads, reads the number, and
    /// hands it to `try_from`, which says whether it is a declared value. A
    /// number that `try_from` refuses fails with `UnknownEnum` of the number.
    /// On failure the cursor is unchanged.
    pub fn variant<C, F: Fn(u32) -> Option<C>>(
        &mut self,
        input: &[u8],
        pos: usize,
        width: usize,
        try_from: F,
    ) -> (r: Result<(C, usize), ErrorKind>)
        requires
            is_width(width as int),
            old(self).cursor <= pos <= input@.len(),
            forall|number: u32| try_from.requires((number,)),
        ensures
            match spec_aligned_read(input@, old(self).cursor as int, pos as int, width as int) {
                None => r == Err::<(C, usize), ErrorKind>(ErrorKind::Truncated),
                Some((number, next)) => match r {
                    Ok((value, p)) => try_from.ensures((number,), Some(value)) && p == next,
                    Err(kind) => try_from.ensures((number,), None) && kind == ErrorKind::UnknownEnum(
                        number,
                    ),
                },
            },
            final(self).cursor == (if r.is_ok() {
                old(self).cursor + pad_len(old(self).cursor as int, width as int) + width
            } else {
                old(self).cursor as int
            }),
    {
        let mut probe = *self;
        match probe.read(input, pos, width) {
            None => Err(ErrorKind::Truncated),
            Some((number, next)) => match try_from(number) {
                Some(value) => {
                    *self = probe;
                    Ok((value, next))
                },
                None => Err(ErrorKind::UnknownEnum(number)),
            },
        }
    }
}

/// What an aligned read of `width` bytes yields with the cursor at `cursor` and
/// the reader at `pos`: the value and the position behind it, or `None` when
/// the input ends first.
pub open spec fn spec_aligned_read(input: Seq<u8>, cursor: int, pos: int, width: int) -> Option<(u32, int)> {
    let at = pos + pad_len(cursor, width);
    if at + width <= input.len() {
        Some((le_value(input, at, width), at + width))
    } else {
        None
    }
}

/// Whether a decoder's result `r` on `input` is the value and extent that
/// `spec` gives: the same value with the input behind it, or the same error.
pub open spec fn decoded<T>(
    r: Result<(&[u8], T), DecodeError>,
    input: Seq<u8>,
    spec: Result<(T, int), DecodeError>,
) -> bool {
    match spec {
        Ok((value, next)) => {
            &&& r matches Ok((rest, v))
            &&& v == value
            &&& 0 <= next <= input.len()
            &&& rest@ == input.skip(next)
        },
        Err(e) => r == Err::<(&[u8], T), DecodeError>(e),
    }
}

/// As [`decoded`], for values that are compared by their view.
pub open spec fn decoded_view<T: View>(
    r: Result<(&[u8], T), DecodeError>,
    input: Seq<u8>,
    spec: Result<(T::V, int), DecodeError>,
) -> bool {
    match spec {
        Ok((value, next)) => {
            &&& r matches Ok((rest, v))
            &&& v@ == value
            &&& 0 <= next <= input.len()
            &&& rest@ == input.skip(next)
        },
        Err(e) => r == Err::<(&[u8], T), DecodeError>(e),
    }
}

/// Whether a positional reader's result `r` is what `spec` gives.
pub open spec fn read_as<T>(
    r: Result<(T, usize), DecodeError>,
    input: Seq<u8>,
    spec: Result<(T, int), DecodeError>,
) -> bool {
    match spec {
        Ok((value, next)) => {
            &&& r matches Ok((v, p))
            &&& v == value
            &&& p == next
            &&& p <= input.len()
        },
        Err(e) => r == Err::<(T, usize), DecodeError>(e),
    }
}

/// As [`read_as`], for values that are compared by their view.
pub open spec fn read_as_view<T: View>(
    r: Result<(T, usize), DecodeError>,
    input: Seq<u8>,
    spec: Result<(T::V, int), DecodeError>,
) -> bool {
    match spec {
        Ok((value, next)) => {
            &&& r matches Ok((v, p))
            &&& v@ == value
            &&& p == next
            &&& p <= input.len()
        },
        Err(e) => r == Err::<(T, usize), DecodeError>(e),
    }
}

/// A record header at `pos`: the two tag bytes `m0 m1`, then a 16-bit byte
/// count. Yields the count and the position behind the header.
pub open spec fn spec_header(record: RecordKind, input: Seq<u8>, pos: int, m0: u8, m1: u8) -> Result<
    (u16, int),
    DecodeError,
> {
    if pos + 2 > input.len() {
        Err(DecodeError::at(ErrorKind::Truncated, record, Field::Header, pos))
    } else if input[pos] != m0 || input[pos + 1] != m1 {
        Err(DecodeError::at(ErrorKind::BadMagic, record, Field::Header, pos))
    } else if pos + 4 > input.len() {
        Err(DecodeError::at(ErrorKind::Truncated, record, Field::Header, pos + 2))
    } else {
        Ok(((input[pos + 2] + 0x100 * input[pos + 3]) as u16, pos + 4))
    }
}

/// Reads a record header at `pos`.
pub fn read_header(record: RecordKind, input: &[u8], pos: usize, m0: u8, m1: u8) -> (r: Result<
    (u16, usize),
    DecodeError,
>)
    requires
        pos <= input@.len(),
    ensures
        read_as(r, input@, spec_header(record, input@, pos as int, m0, m1)),
        r matches Err(e) ==> e.offset <= input@.len(),
{
    if input.len() - pos < 2 {
        return Err(DecodeError { kind: ErrorKind::Truncated, record, field: Field::Header, offset: pos });
    }
    if input[pos] != m0 || input[pos + 1] != m1 {
        return Err(DecodeError { kind: ErrorKind::BadMagic, record, field: Field::Header, offset: pos });
    }
    match le_u16(input, pos + 2) {
        Some(count) => Ok((count, pos + 4)),
        None => Err(
            DecodeError { kind: ErrorKind::Truncated, record, field: Field::Header, offset: pos + 2 },
        ),
    }
}

/// The eight bytes of `input` at `at` as one number, the first byte most significant.
pub open spec fn be64_value(input: Seq<u8>, at: int) -> u64 {
    (input[at] * 0x100_0000_0000_0000 + input[at + 1] * 0x1_0000_0000_0000 + input[at + 2]
        * 0x100_0000_0000 + input[at + 3] * 0x1_0000_0000 + input[at + 4] * 0x100_0000 + input[at
        + 5] * 0x1_0000 + input[at + 6] * 0x100 + input[at + 7]) as u64
}

/// The GUID in the sixteen bytes of `input` at `pos`.
pub open spec fn spec_guid(input: Seq<u8>, pos: int) -> Guid {
    Guid {
        data1: le_value(input, pos, 4),
        data2: le_value(input, pos + 4, 2) as u16,
        data3: le_value(input, pos + 6, 2) as u16,
        data4: be64_value(input, pos + 8),
    }
}

/// Reads a GUID at `pos`. `None` exactly when fewer than sixteen bytes are left.
pub fn read_guid(input: &[u8], pos: usize) -> (r: Option<Guid>)
    requires
        pos <= input@.len(),
    ensures
        r == (if pos + 16 <= input@.len() {
            Some(spec_guid(input@, pos as int))
        } else {
            None
        }),
{
    if input.len() - pos < 16 {
        return None;
    }
    let data1 = le_u32(input, pos).unwrap();
    let data2 = le_u16(input, pos + 4).unwrap();
    let data3 = le_u16(input, pos + 6).unwrap();
    let b0: u64 = input[pos + 8] as u64;
    let b1: u64 = input[pos + 9] as u64;
    let b2: u64 = input[pos + 10] as u64;
    let b3: u64 = input[pos + 11] as u64;
    let b4: u64 = input[pos + 12] as u64;
    let b5: u64 = input[pos + 13] as u64;
    let b6: u64 = input[pos + 14] as u64;
    let b7: u64 = input[pos + 15] as u64;
    let data4: u64 = b0 * 0x100_0000_0000_0000 + b1 * 0x1_0000_0000_0000 + b2 * 0x100_0000_0000
        + b3 * 0x1_0000_0000 + b4 * 0x100_0000 + b5 * 0x1_0000 + b6 * 0x100 + b7;
    Some(Guid { data1, data2, data3, data4 })
}

/// A GUID at the start of `input`.
pub open spec fn spec_parse_guid(input: Seq<u8>) -> Result<(Guid, int), DecodeError> {
    if input.len() < 16 {
        Err(DecodeError::at(ErrorKind::Truncated, RecordKind::Guid, Field::Value, 0))
    } else {
        Ok((spec_guid(input, 0), 16))
    }
}

/// Decodes a GUID from the first sixteen bytes of `input`.
pub fn parse_guid<'a>(input: &'a [u8]) -> (r: Result<(&'a [u8], Guid), DecodeError>)
    ensures
        decoded(r, input@, spec_parse_guid(input@)),
{
    match read_guid(input, 0) {
        Some(guid) => Ok((rest_of(input, 16), guid)),
        None => Err(
            DecodeError {
                kind: ErrorKind::Truncated,
                record: RecordKind::Guid,
                field: Field::Value,
                offset: 0,
            },
        ),
    }
}

/// A GUID at the start of `input` that must be `guid`.
pub open spec fn spec_tag_guid(guid: Guid, input: Seq<u8>) -> Result<(Guid, int), DecodeError> {
    if input.len() < 16 {
        Err(DecodeError::at(ErrorKind::Truncated, RecordKind::Guid, Field::Value, 0))
    } else if spec_guid(input, 0) != guid {
        Err(DecodeError::at(ErrorKind::UnknownGuid, RecordKind::Guid, Field::Value, 0))
    } else {
        Ok((guid, 16))
    }
}

/// Decodes a GUID and checks that it is `guid`.
pub fn tag_guid<'a>(guid: Guid, input: &'a [u8]) -> (r: Result<(&'a [u8], Guid), DecodeError>)
    ensures
        decoded(r, input@, spec_tag_guid(guid, input@)),
{
    match read_guid(input, 0) {
        Some(found) => {
            if found == guid {
                Ok((rest_of(input, 16), found))
            } else {
                Err(
                    DecodeError {
                        kind: ErrorKind::UnknownGuid,
                        record: RecordKind::Guid,
                        field: Field::Value,
                        offset: 0,
                    },
                )
            }
        },
        None => Err(
            DecodeError {
                kind: ErrorKind::Truncated,
                record: RecordKind::Guid,
                field: Field::Value,
                offset: 0,
            },
        ),
    }
}

/// Whether `bytes` is an ANSI string with its closing NUL: the last byte is
/// zero and no other byte is.
pub open spec fn is_c_string(bytes: Seq<u8>) -> bool {
    &&& bytes.len() >= 1
    &&& bytes[bytes.len() - 1] == 0
    &&& forall|i: int| 0 <= i < bytes.len() - 1 ==> bytes[i] != 0
}

/// Takes the `n` bytes at `pos` as an ANSI string and returns it without its
/// closing NUL. `None` exactly when those bytes are not such a string.
pub fn read_c_string(input: &[u8], pos: usize, n: usize) -> (r: Option<Vec<u8>>)
    requires
        pos + n <= input@.len(),
    ensures
        match r {
            Some(s) => is_c_string(input@.subrange(pos as int, pos + n)) && s@ == input@.subrange(
                pos as int,
                pos + n - 1,
            ),
            None => !is_c_string(input@.subrange(pos as int, pos + n)),
        },
{
    let ghost bytes = input@.subrange(pos as int, pos + n);
    let len = input.len();
    if n == 0 || input[pos + n - 1] != 0 {
        assert(n > 0 ==> bytes[n - 1] == input@[pos + n - 1]);
        return None;
    }
    assert(bytes[n - 1] == input@[pos + n - 1]);
    let mut out: Vec<u8> = Vec::new();
    let mut i: usize = 0;
    while i < n - 1
        invariant
            0 <= i <= n - 1,
            pos + n <= input@.len() == len,
            bytes == input@.subrange(pos as int, pos + n),
            out@ == input@.subrange(pos as int, pos + i),
            forall|j: int| 0 <= j < i ==> bytes[j] != 0,
        decreases n - 1 - i,
    {
        let b = input[pos + i];
        assert(bytes[i as int] == b);
        if b == 0 {
            return None;
        }
        out.push(b);
        assert(out@ =~= input@.subrange(pos as int, pos + i + 1));
        i = i + 1;
    }
    Some(out)
}

/// The clipboard format at `pos`: a 32-bit marker or length, then the
/// identifier of a standard format or the name of a registered one.
pub open spec fn spec_clipboard_format(input: Seq<u8>, pos: int) -> Result<
    (ClipboardFormatModel, int),
    DecodeError,
> {
    if pos + 4 > input.len() {
        Err(
            DecodeError::at(
                ErrorKind::Truncated,
                RecordKind::CompObj,
                Field::ClipboardFormatMarker,
                pos,
            ),
        )
    } else {
        let marker = le_value(input, pos, 4);
        if marker == 0 {
            Ok((ClipboardFormatModel::Unset, pos + 4))
        } else if marker == 0xFFFF_FFFE || marker == 0xFFFF_FFFF {
            if pos + 8 > input.len() {
                Err(
                    DecodeError::at(
                        ErrorKind::Truncated,
                        RecordKind::CompObj,
                        Field::ClipboardFormat,
                        pos + 4,
                    ),
                )
            } else {
                Ok((ClipboardFormatModel::Standard(le_value(input, pos + 4, 4)), pos + 8))
            }
        } else if pos + 4 + marker > input.len() {
            Err(
                DecodeError::at(
                    ErrorKind::Truncated,
                    RecordKind::CompObj,
                    Field::ClipboardFormat,
                    pos + 4,
                ),
            )
        } else if !is_c_string(input.subrange(pos + 4, pos + 4 + marker)) {
            Err(
                DecodeError::at(
                    ErrorKind::ConstraintViolation,
                    RecordKind::CompObj,
                    Field::ClipboardFormat,
                    pos + 4,
                ),
            )
        } else {
            Ok(
                (
                    ClipboardFormatModel::Custom(input.subrange(pos + 4, pos + 4 + marker - 1)),
                    pos + 4 + marker,
                ),
            )
        }
    }
}

/// Reads the clipboard format at `pos`.
pub fn read_clipboard_format(input: &[u8], pos: usize) -> (r: Result<
    (ClipboardFormat, usize),
    DecodeError,
>)
    requires
        pos <= input@.len(),
    ensures
        read_as_view(r, input@, spec_clipboard_format(input@, pos as int)),
{
    let len = input.len();
    let marker = match le_u32(input, pos) {
        Some(m) => m,
        None => {
            return Err(
                DecodeError {
                    kind: ErrorKind::Truncated,
                    record: RecordKind::CompObj,
                    field: Field::ClipboardFormatMarker,
                    offset: pos,
                },
            );
        },
    };
    let at = pos + 4;
    if marker == 0 {
        Ok((ClipboardFormat::Unset, at))
    } else if marker == 0xFFFF_FFFE || marker == 0xFFFF_FFFF {
        match le_u32(input, at) {
            Some(id) => Ok((ClipboardFormat::Standard(id), at + 4)),
            None => Err(
                DecodeError {
                    kind: ErrorKind::Truncated,
                    record: RecordKind::CompObj,
                    field: Field::ClipboardFormat,
                    offset: at,
                },
            ),
        }
    } else {
        let n = marker as usize;
        if len - at < n {
            return Err(
                DecodeError {
                    kind: ErrorKind::Truncated,
                    record: RecordKind::CompObj,
                    field: Field::ClipboardFormat,
                    offset: at,
                },
            );
        }
        match read_c_string(input, at, n) {
            Some(name) => Ok((ClipboardFormat::Custom(name), at + n)),
            None => Err(
                DecodeError {
                    kind: ErrorKind::ConstraintViolation,
                    record: RecordKind::CompObj,
                    field: Field::ClipboardFormat,
                    offset: at,
                },
            ),
        }
    }
}

/// The length-prefixed ANSI string at `pos`: a 32-bit length, then that many
/// bytes, the last of which is the only NUL. Yields the string without the NUL.
pub open spec fn spec_length_prefixed_ansi_string(input: Seq<u8>, pos: int) -> Result<
    (Seq<u8>, int),
    DecodeError,
> {
    if pos + 4 > input.len() {
        Err(DecodeError::at(ErrorKind::Truncated, RecordKind::CompObj, Field::UserTypeLength, pos))
    } else {
        let n = le_value(input, pos, 4);
        if pos + 4 + n > input.len() {
            Err(DecodeError::at(ErrorKind::Truncated, RecordKind::CompObj, Field::UserType, pos + 4))
        } else if !is_c_string(input.subrange(pos + 4, pos + 4 + n)) {
            Err(
                DecodeError::at(
                    ErrorKind::ConstraintViolation,
                    RecordKind::CompObj,
                    Field::UserType,
                    pos + 4,
                ),
            )
        } else {
            Ok((input.subrange(pos + 4, pos + 4 + n - 1), pos + 4 + n))
        }
    }
}

/// Reads the length-prefixed ANSI string at `pos`.
pub fn read_length_prefixed_ansi_string(input: &[u8], pos: usize) -> (r: Result<
    (Vec<u8>, usize),
    DecodeError,
>)
    requires
        pos <= input@.len(),
    ensures
        read_as_view(r, input@, spec_length_prefixed_ansi_string(input@, pos as int)),
{
    let len = input.len();
    let n = match le_u32(input, pos) {
        Some(n) => n as usize,
        None => {
            return Err(
                DecodeError {
                    kind: ErrorKind::Truncated,
                    record: RecordKind::CompObj,
                    field: Field::UserTypeLength,
                    offset: pos,
                },
            );
        },
    };
    let at = pos + 4;
    if len - at < n {
        return Err(
            DecodeError {
                kind: ErrorKind::Truncated,
                record: RecordKind::CompObj,
                field: Field::UserType,
                offset: at,
            },
        );
    }
    match read_c_string(input, at, n) {
        Some(s) => Ok((s, at + n)),
        None => Err(
            DecodeError {
                kind: ErrorKind::ConstraintViolation,
                record: RecordKind::CompObj,
                field: Field::UserType,
                offset: at,
            },
        ),
    }
}

/// The size of the header of a CompObj stream.
pub const COMP_OBJ_HEADER_LEN: usize = 28;

/// The header of a CompObj stream at the start of `input`: 28 bytes.
pub open spec fn spec_parse_comp_obj_header(input: Seq<u8>) -> Result<(CompObjHeader, int), DecodeError> {
    if input.len() < COMP_OBJ_HEADER_LEN {
        Err(DecodeError::at(ErrorKind::Truncated, RecordKind::CompObj, Field::Header, 0))
    } else {
        Ok((CompObjHeader, COMP_OBJ_HEADER_LEN as int))
    }
}

/// Passes over the header of a CompObj stream.
pub fn parse_comp_obj_header<'a>(input: &'a [u8]) -> (r: Result<(&'a [u8], CompObjHeader), DecodeError>)
    ensures
        decoded(r, input@, spec_parse_comp_obj_header(input@)),
{
    if input.len() < COMP_OBJ_HEADER_LEN {
        return Err(
            DecodeError {
                kind: ErrorKind::Truncated,
                record: RecordKind::CompObj,
                field: Field::Header,
                offset: 0,
            },
        );
    }
    Ok((rest_of(input, COMP_OBJ_HEADER_LEN), CompObjHeader))
}

/// Decodes a length-prefixed ANSI string from the start of `input`.
pub fn parse_length_prefixed_ansi_string<'a>(input: &'a [u8]) -> (r: Result<
    (&'a [u8], Vec<u8>),
    DecodeError,
>)
    ensures
        decoded_view(r, input@, spec_length_prefixed_ansi_string(input@, 0)),
{
    let (s, next) = read_length_prefixed_ansi_string(input, 0)?;
    Ok((rest_of(input, next), s))
}

/// Decodes a clipboard format from the start of `input`.
pub fn parse_ansi_clipboard_format<'a>(input: &'a [u8]) -> (r: Result<
    (&'a [u8], ClipboardFormat),
    DecodeError,
>)
    ensures
        decoded_view(r, input@, spec_clipboard_format(input@, 0)),
{
    let (format, next) = read_clipboard_format(input, 0)?;
    Ok((rest_of(input, next), format))
}

/// A CompObj stream: a header of 28 bytes that is skipped, the ANSI user type,
/// and the ANSI clipboard format.
pub open spec fn spec_parse_comp_obj(input: Seq<u8>) -> Result<(CompObjModel, int), DecodeError> {
    if spec_parse_comp_obj_header(input) is Err {
        Err(DecodeError::at(ErrorKind::Truncated, RecordKind::CompObj, Field::Header, 0))
    } else {
        match spec_length_prefixed_ansi_string(input, COMP_OBJ_HEADER_LEN as int) {
            Err(e) => Err(e),
            Ok((user_type, pos)) => match spec_clipboard_format(input, pos) {
                Err(e) => Err(e),
                Ok((format, next)) => Ok(
                    (CompObjModel { ansi_user_type: user_type, ansi_clipboard_format: format }, next),
                ),
            },
        }
    }
}

/// Decodes a CompObj stream from the start of `input`.
pub fn parse_comp_obj<'a>(input: &'a [u8]) -> (r: Result<(&'a [u8], CompObj), DecodeError>)
    ensures
        decoded_view(r, input@, spec_parse_comp_obj(input@)),
{
    if input.len() < COMP_OBJ_HEADER_LEN {
        return Err(
            DecodeError {
                kind: ErrorKind::Truncated,
                record: RecordKind::CompObj,
                field: Field::Header,
                offset: 0,
            },
        );
    }
    let (ansi_user_type, pos) = read_length_prefixed_ansi_string(input, COMP_OBJ_HEADER_LEN)?;
    let (ansi_clipboard_format, next) = read_clipboard_format(input, pos)?;
    Ok((rest_of(input, next), CompObj { ansi_user_type, ansi_clipboard_format }))
}

} // verus!
