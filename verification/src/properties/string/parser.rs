//! Decoding of strings.
//!
//! A compressed string has one byte for each character (ISO-8859-1); any
//! other string is UTF-16LE. The length counts the stored bytes.
use vstd::prelude::*;
use vstd::slice::slice_subrange;
use crate::common::parser::{decoded_view, rest_of};
use crate::error::{DecodeError, ErrorKind, Field, RecordKind};
use crate::properties::string::stream::CountOfBytesWithCompressionFlag;

verus! {

/// The characters of an ISO-8859-1 string: each byte is the code point of one character.
pub open spec fn latin1_chars(bytes: Seq<u8>) -> Seq<char> {
    Seq::new(bytes.len(), |i: int| bytes[i] as char)
}

/// The characters that `encoding_rs` decodes from `bytes` as UTF-16LE, with a
/// byte order mark sniffed and stripped and with each malformed sequence
/// replaced by U+FFFD.
pub uninterp spec fn utf16le_decoded(bytes: Seq<u8>) -> Seq<char>;

/// The longest run of bytes that this machine decodes to a string. The
/// decoders size their buffers at up to four times the input length and a few
/// bytes more, and a buffer cannot have more than `isize::MAX` bytes.
pub open spec fn max_string_bytes() -> int {
    (usize::MAX / 16) as int
}

/// `encoding_rs::mem::decode_latin1`: every byte becomes the character with
/// that code point. Its buffer has up to twice as many bytes as the input;
/// the bound keeps that allocation in range.
#[verifier::external_body]
fn decode_latin1(bytes: &[u8]) -> (s: String)
    requires
        bytes@.len() <= max_string_bytes(),
    ensures
        s@ == latin1_chars(bytes@),
{
    encoding_rs::mem::decode_latin1(bytes).into_owned()
}

/// `encoding_rs::UTF_16LE.decode`: the decoded text is a function of the
/// bytes alone and is named [`utf16le_decoded`]. The call panics if the size
/// of its buffer overflows; the bound keeps every size that it computes in
/// range.
#[verifier::external_body]
fn decode_utf16_le(bytes: &[u8]) -> (s: String)
    requires
        bytes@.len() <= max_string_bytes(),
    ensures
        s@ == utf16le_decoded(bytes@),
{
    encoding_rs::UTF_16LE.decode(bytes).0.into_owned()
}

/// Whether every byte of `bytes` is an ASCII character.
pub open spec fn is_ascii_bytes(bytes: Seq<u8>) -> bool {
    forall|i: int| 0 <= i < bytes.len() ==> bytes[i] < 0x80
}

/// Takes the `n` bytes at `pos` as an ASCII string. `None` exactly when one
/// of them is not an ASCII character.
pub fn read_ascii(input: &[u8], pos: usize, n: usize) -> (r: Option<String>)
    requires
        pos + n <= input@.len(),
        n <= max_string_bytes(),
    ensures
        match r {
            Some(s) => {
                &&& is_ascii_bytes(input@.subrange(pos as int, pos + n))
                &&& s@ == latin1_chars(input@.subrange(pos as int, pos + n))
            },
            None => !is_ascii_bytes(input@.subrange(pos as int, pos + n)),
        },
{
    let len = input.len();
    let ghost bytes = input@.subrange(pos as int, pos + n);
    let mut i: usize = 0;
    while i < n
        invariant
            0 <= i <= n,
            pos + n <= input@.len() == len,
            bytes == input@.subrange(pos as int, pos + n),
            forall|j: int| 0 <= j < i ==> bytes[j] < 0x80,
        decreases n - i,
    {
        assert(bytes[i as int] == input@[pos + i]);
        if input[pos + i] >= 0x80 {
            return None;
        }
        i = i + 1;
    }
    Some(decode_latin1(slice_subrange(input, pos, pos + n)))
}

/// The text of the stored bytes `bytes` of a string.
pub open spec fn string_text(bytes: Seq<u8>, compressed: bool) -> Seq<char> {
    if compressed {
        latin1_chars(bytes)
    } else {
        utf16le_decoded(bytes)
    }
}

/// The string at `pos` whose length and compression are `lc`, and the
/// position behind it; or the cause of the failure: `Truncated` when fewer
/// bytes are left than the length says, `ConstraintViolation` when the string
/// is longer than this machine decodes.
pub open spec fn spec_string(input: Seq<u8>, pos: int, lc: CountOfBytesWithCompressionFlag) -> Result<
    (Seq<char>, int),
    ErrorKind,
> {
    if pos + lc.len() > input.len() {
        Err(ErrorKind::Truncated)
    } else if lc.len() > max_string_bytes() {
        Err(ErrorKind::ConstraintViolation)
    } else {
        Ok((string_text(input.subrange(pos, pos + lc.len()), lc.compressed()), pos + lc.len()))
    }
}

/// Reads the string at `pos` whose length and compression are `lc`.
pub fn read_string(input: &[u8], pos: usize, lc: CountOfBytesWithCompressionFlag) -> (r: Result<
    (String, usize),
    ErrorKind,
>)
    requires
        pos <= input@.len(),
    ensures
        match spec_string(input@, pos as int, lc) {
            Ok((text, next)) => r matches Ok((s, p)) && s@ == text && p == next && p <= input@.len(),
            Err(kind) => r == Err::<(String, usize), ErrorKind>(kind),
        },
{
    let n = lc.len() as usize;
    if input.len() - pos < n {
        return Err(ErrorKind::Truncated);
    }
    if n > usize::MAX / 16 {
        return Err(ErrorKind::ConstraintViolation);
    }
    let bytes = slice_subrange(input, pos, pos + n);
    let s = if lc.compressed() {
        decode_latin1(bytes)
    } else {
        decode_utf16_le(bytes)
    };
    Ok((s, pos + n))
}

/// A string at the start of `input` whose length and compression are `lc`.
pub open spec fn spec_parse_string(lc: CountOfBytesWithCompressionFlag, input: Seq<u8>) -> Result<
    (Seq<char>, int),
    DecodeError,
> {
    match spec_string(input, 0, lc) {
        Ok(r) => Ok(r),
        Err(kind) => Err(DecodeError::at(kind, RecordKind::FmString, Field::Value, 0)),
    }
}

/// Decodes the string at the start of `input` whose length and compression
/// were read before.
pub fn parse_string<'a>(length_and_compression: CountOfBytesWithCompressionFlag, input: &'a [u8]) -> (r:
    Result<(&'a [u8], String), DecodeError>)
    ensures
        decoded_view(r, input@, spec_parse_string(length_and_compression, input@)),
{
    match read_string(input, 0, length_and_compression) {
        Ok((s, next)) => Ok((rest_of(input, next), s)),
        Err(kind) => Err(
            DecodeError { kind, record: RecordKind::FmString, field: Field::Value, offset: 0 },
        ),
    }
}

} // verus!
