//! Types and readers shared by all records.
pub mod parser;
pub mod props;

pub use parser::{parse_comp_obj, parse_guid, tag_guid, AlignedParser};

use vstd::prelude::*;

verus! {

/// A GUID as the Windows convention stores it: a `u32`, two `u16`, each
/// little-endian in the file, and eight bytes.
///
/// `data4` holds the eight bytes in file order, the first byte most
/// significant, so that the value reads as the GUID is written.
#[derive(Clone, Copy, Debug, PartialEq, Eq, Hash, Structural)]
pub struct Guid {
    pub data1: u32,
    pub data2: u16,
    pub data3: u16,
    pub data4: u64,
}

impl Guid {
    /// `{00000000-0000-0000-0000-000000000000}`
    #[verifier::allow_in_spec]
    pub fn nil() -> (g: Guid)
        returns
            (Guid { data1: 0, data2: 0, data3: 0, data4: 0 }),
    {
        Guid { data1: 0, data2: 0, data3: 0, data4: 0 }
    }
}

/// `{0BE35203-8F91-11CE-9DE3-00AA004BB851}` StdFont
#[allow(non_snake_case)]
#[verifier::allow_in_spec]
pub fn CLSID_STD_FONT() -> (g: Guid)
    returns
        (Guid { data1: 0x0BE35203, data2: 0x8F91, data3: 0x11CE, data4: 0x9DE3_00AA_004B_B851 }),
{
    Guid { data1: 0x0BE35203, data2: 0x8F91, data3: 0x11CE, data4: 0x9DE3_00AA_004B_B851 }
}

/// `{AFC20920-DA4E-11CE-B943-00AA006887B4}` TextProps
#[allow(non_snake_case)]
#[verifier::allow_in_spec]
pub fn CLSID_TEXT_PROPS() -> (g: Guid)
    returns
        (Guid { data1: 0xAFC20920, data2: 0xDA4E, data3: 0x11CE, data4: 0xB943_00AA_0068_87B4 }),
{
    Guid { data1: 0xAFC20920, data2: 0xDA4E, data3: 0x11CE, data4: 0xB943_00AA_0068_87B4 }
}

/// `{0BE35204-8F91-11CE-9DE3-00AA004BB851}` StdPicture
#[allow(non_snake_case)]
#[verifier::allow_in_spec]
pub fn CLSID_STD_PICTURE() -> (g: Guid)
    returns
        (Guid { data1: 0x0BE35204, data2: 0x8F91, data3: 0x11CE, data4: 0x9DE3_00AA_004B_B851 }),
{
    Guid { data1: 0x0BE35204, data2: 0x8F91, data3: 0x11CE, data4: 0x9DE3_00AA_004B_B851 }
}

/// `{105B80DE-95F1-11D0-B0A0-00AA00BDCB5C}` Microsoft DT DDSform 2.1 FontNew
#[allow(non_snake_case)]
#[verifier::allow_in_spec]
pub fn CLSID_DT_DDSFORM_21_FONT_NEW() -> (g: Guid)
    returns
        (Guid { data1: 0x105B80DE, data2: 0x95F1, data3: 0x11D0, data4: 0xB0A0_00AA_00BD_CB5C }),
{
    Guid { data1: 0x105B80DE, data2: 0x95F1, data3: 0x11D0, data4: 0xB0A0_00AA_00BD_CB5C }
}

/// `{00020400-0000-0000-C000-000000000046}` IDispatch
#[allow(non_snake_case)]
#[verifier::allow_in_spec]
pub fn IID_IDISPATCH() -> (g: Guid)
    returns
        (Guid { data1: 0x00020400, data2: 0x0000, data3: 0x0000, data4: 0xC000_0000_0000_0046 }),
{
    Guid { data1: 0x00020400, data2: 0x0000, data3: 0x0000, data4: 0xC000_0000_0000_0046 }
}

/// The VARFLAGS of a variable description: features of a field, constant or
/// dispinterface property.
#[derive(Clone, Copy, Debug, PartialEq, Eq, Hash, Structural)]
pub struct VarFlags {
    pub bits: u16,
}

impl VarFlags {
    pub const READONLY: u16 = 0x1;
    pub const SOURCE: u16 = 0x2;
    pub const BINDABLE: u16 = 0x4;
    pub const REQUEST_EDIT: u16 = 0x8;
    pub const DISPLAY_BIND: u16 = 0x10;
    pub const DEFAULT_BIND: u16 = 0x20;
    pub const HIDDEN: u16 = 0x40;
    pub const RESTRICTED: u16 = 0x80;
    pub const DEFAULT_COLL_ELEM: u16 = 0x100;
    pub const UI_DEFAULT: u16 = 0x200;
    pub const NON_BROWSABLE: u16 = 0x400;
    pub const REPLACEABLE: u16 = 0x800;
    pub const IMMEDIATE_BIND: u16 = 0x1000;
    /// Every declared bit.
    pub const ALL: u16 = 0x1FFF;

    /// The flag set with exactly the bits of `bits`, unless one of them is not declared.
    pub fn from_bits(bits: u16) -> (r: Option<VarFlags>)
        ensures
            r == (if bits & !VarFlags::ALL == 0 {
                Some(VarFlags { bits })
            } else {
                None
            }),
    {
        if bits & !VarFlags::ALL == 0 {
            Some(VarFlags { bits })
        } else {
            None
        }
    }

    /// The empty flag set.
    #[verifier::allow_in_spec]
    pub fn empty() -> (r: VarFlags)
        returns
            (VarFlags { bits: 0 }),
    {
        VarFlags { bits: 0 }
    }

    /// The raw bits.
    #[verifier::allow_in_spec]
    pub fn bits(&self) -> (r: u16)
        returns
            self.bits,
    {
        self.bits
    }

    /// Whether every bit of `flags` is set.
    #[verifier::allow_in_spec]
    pub fn contains(&self, flags: u16) -> (r: bool)
        returns
            (self.bits & flags == flags),
    {
        self.bits & flags == flags
    }
}

/// The VARIANT type constants, as a flag set over their bits.
#[derive(Clone, Copy, Debug, PartialEq, Eq, Hash, Structural)]
pub struct VarType {
    pub bits: u16,
}

impl VarType {
    pub const EMPTY: u16 = 0x0000;
    pub const NULL: u16 = 0x0001;
    pub const I2: u16 = 0x0002;
    pub const I4: u16 = 0x0003;
    pub const R4: u16 = 0x0004;
    pub const R8: u16 = 0x0005;
    pub const CY: u16 = 0x0006;
    pub const DATE: u16 = 0x0007;
    pub const BSTR: u16 = 0x0008;
    pub const DISPATCH: u16 = 0x0009;
    pub const ERROR: u16 = 0x000A;
    pub const BOOL: u16 = 0x000B;
    pub const VARIANT: u16 = 0x000C;
    pub const UNKNOWN: u16 = 0x000D;
    pub const DECIMAL: u16 = 0x000E;
    pub const I1: u16 = 0x0010;
    pub const UI1: u16 = 0x0011;
    pub const UI2: u16 = 0x0012;
    pub const UI4: u16 = 0x0013;
    pub const I8: u16 = 0x0014;
    pub const UI8: u16 = 0x0015;
    pub const INT: u16 = 0x0016;
    pub const UINT: u16 = 0x0017;
    pub const VOID: u16 = 0x0018;
    pub const HRESULT: u16 = 0x0019;
    pub const PTR: u16 = 0x001A;
    pub const SAFEARRAY: u16 = 0x001B;
    pub const CARRAY: u16 = 0x001C;
    pub const USERDEFINED: u16 = 0x001D;
    pub const LPSTR: u16 = 0x001E;
    pub const LPWSTR: u16 = 0x001F;
    pub const RECORD: u16 = 0x0024;
    pub const INTPTR: u16 = 0x0025;
    pub const UINTPTR: u16 = 0x0026;
    pub const ARRAY: u16 = 0x2000;
    pub const BYREF: u16 = 0x4000;
    /// Every bit that some declared constant sets.
    pub const ALL: u16 = 0x603F;

    /// The type with exactly the bits of `bits`, unless one of them is not declared.
    pub fn from_bits(bits: u16) -> (r: Option<VarType>)
        ensures
            r == (if bits & !VarType::ALL == 0 {
                Some(VarType { bits })
            } else {
                None
            }),
    {
        if bits & !VarType::ALL == 0 {
            Some(VarType { bits })
        } else {
            None
        }
    }

    /// The raw bits.
    #[verifier::allow_in_spec]
    pub fn bits(&self) -> (r: u16)
        returns
            self.bits,
    {
        self.bits
    }

    /// Whether every bit of `flags` is set.
    #[verifier::allow_in_spec]
    pub fn contains(&self, flags: u16) -> (r: bool)
        returns
            (self.bits & flags == flags),
    {
        self.bits & flags == flags
    }
}

/// The header of a CompObj stream: 28 bytes that carry nothing for this decoder.
#[derive(Clone, Copy, Debug, PartialEq, Eq, Structural)]
pub struct CompObjHeader;

/// A clipboard format as the CompObj stream names it.
#[derive(Clone, Debug, PartialEq, Eq)]
pub enum ClipboardFormat {
    /// No format is given.
    Unset,
    /// A standard format, by its identifier.
    Standard(u32),
    /// A registered format, by its ANSI name (without the closing NUL).
    Custom(Vec<u8>),
}

/// The mathematical value of a [`ClipboardFormat`].
pub enum ClipboardFormatModel {
    Unset,
    Standard(u32),
    Custom(Seq<u8>),
}

impl View for ClipboardFormat {
    type V = ClipboardFormatModel;

    open spec fn view(&self) -> ClipboardFormatModel {
        match self {
            ClipboardFormat::Unset => ClipboardFormatModel::Unset,
            ClipboardFormat::Standard(id) => ClipboardFormatModel::Standard(*id),
            ClipboardFormat::Custom(name) => ClipboardFormatModel::Custom(name@),
        }
    }
}

impl ClipboardFormat {
    /// The registered format with the given name.
    pub fn custom(name: &[u8]) -> (r: ClipboardFormat)
        ensures
            r@ == ClipboardFormatModel::Custom(name@),
    {
        ClipboardFormat::Custom(vstd::slice::slice_to_vec(name))
    }
}

/// The content of a CompObj stream.
#[derive(Clone, Debug, PartialEq, Eq)]
pub struct CompObj {
    /// The display name of the class, in the ANSI code page (without the closing NUL).
    pub ansi_user_type: Vec<u8>,
    pub ansi_clipboard_format: ClipboardFormat,
}

/// The mathematical value of a [`CompObj`].
pub struct CompObjModel {
    pub ansi_user_type: Seq<u8>,
    pub ansi_clipboard_format: ClipboardFormatModel,
}

impl View for CompObj {
    type V = CompObjModel;

    open spec fn view(&self) -> CompObjModel {
        CompObjModel {
            ansi_user_type: self.ansi_user_type@,
            ansi_clipboard_format: self.ansi_clipboard_format@,
        }
    }
}

} // verus!
