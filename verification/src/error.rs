//! Structured decode errors.
//!
//! Every decoder in this crate either returns a fully populated value or a
//! [`DecodeError`] that names the record, the field, the byte offset and the cause.
use vstd::prelude::*;

verus! {

/// Why a decode failed.
#[derive(Clone, Copy, Debug, PartialEq, Eq, Structural)]
pub enum ErrorKind {
    /// The input ended inside a primitive, a sub-record body or a length-prefixed payload.
    Truncated,
    /// The tag bytes at a record header did not match.
    BadMagic,
    /// A bit field held bits outside its declared universe; carries the word that was read.
    UnknownBits(u32),
    /// An enumeration field held an undeclared value; carries that value.
    UnknownEnum(u32),
    /// An inline stream placeholder was not `0xFFFF`.
    PlaceholderMismatch,
    /// A numeric or structural constraint of the format failed.
    ConstraintViolation,
    /// A GUID-dispatched sub-record carried a class id that is not known.
    UnknownGuid,
}

/// The record a decoder was working on when it failed.
#[derive(Clone, Copy, Debug, PartialEq, Eq, Structural)]
pub enum RecordKind {
    CompObj,
    Guid,
    OleColor,
    Size,
    Position,
    FmString,
    StdFont,
    DdsForm21FontNew,
    GuidAndFont,
    SiteClassInfo,
    SiteDepthsAndTypes,
    OleSiteConcrete,
    FormControl,
    CommandButton,
}

/// The field a decoder was reading when it failed.
#[derive(Clone, Copy, Debug, PartialEq, Eq, Structural)]
pub enum Field {
    /// The tag bytes and byte count that open a record.
    Header,
    /// The property mask of a record.
    PropMask,
    /// The padding between the fixed block and the data that follows it.
    Padding,
    /// The whole value, for records that consist of a single item.
    Value,
    BackColor,
    ForeColor,
    NextAvailableId,
    BooleanProperties,
    BorderStyle,
    MousePointer,
    ScrollBars,
    GroupCount,
    MouseIcon,
    Cycle,
    SpecialEffect,
    BorderColor,
    Caption,
    Font,
    Picture,
    Zoom,
    PictureAlignment,
    PictureSizeMode,
    ShapeCookie,
    DrawBuffer,
    DisplayedSize,
    LogicalSize,
    ScrollPosition,
    CountOfSiteClassInfo,
    CountOfSites,
    CountOfBytes,
    Sites,
    Name,
    Tag,
    Id,
    HelpContextId,
    BitFlags,
    ObjectStreamSize,
    TabIndex,
    ClsidCacheIndex,
    GroupId,
    ControlTipText,
    RuntimeLicKey,
    ControlSource,
    RowSource,
    SitePosition,
    ClassTableFlags,
    VarFlags,
    CountOfMethods,
    DispidBind,
    GetBindIndex,
    PutBindIndex,
    BindType,
    GetValueIndex,
    PutValueIndex,
    ValueType,
    DispidRowset,
    SetRowset,
    ClsId,
    DispEvent,
    DefaultProc,
    Depth,
    TypeOrCount,
    SiteType,
    Version,
    Charset,
    FontFlags,
    Weight,
    Height,
    FaceLength,
    FontFace,
    ByteCount,
    Data,
    Guid,
    UserTypeLength,
    UserType,
    ClipboardFormatMarker,
    ClipboardFormat,
}

/// A failed decode: cause, record, field and the byte offset in the decoder's input.
///
/// For [`ErrorKind::Truncated`] the offset is where the reader stood before the field
/// (before any alignment padding); for every other cause it is where the offending
/// value begins.
#[derive(Clone, Copy, Debug, PartialEq, Eq, Structural)]
pub struct DecodeError {
    pub kind: ErrorKind,
    pub record: RecordKind,
    pub field: Field,
    pub offset: usize,
}

impl DecodeError {
    /// The error of cause `kind` in `field` of `record` at byte `offset`.
    pub open spec fn at(kind: ErrorKind, record: RecordKind, field: Field, offset: int) -> DecodeError {
        DecodeError { kind, record, field, offset: offset as usize }
    }

    /// The same failure seen from an enclosing input in which this decoder's
    /// input began at byte `base`.
    pub open spec fn spec_shifted(self, base: int) -> DecodeError {
        DecodeError {
            kind: self.kind,
            record: self.record,
            field: self.field,
            offset: (self.offset + base) as usize,
        }
    }

    /// Moves the offset by `base`, the place in the enclosing input where this
    /// decoder's input began.
    pub fn shifted(self, base: usize) -> (e: DecodeError)
        requires
            self.offset + base <= usize::MAX,
        ensures
            e == self.spec_shifted(base as int),
    {
        DecodeError {
            kind: self.kind,
            record: self.record,
            field: self.field,
            offset: self.offset + base,
        }
    }
}

} // verus!
