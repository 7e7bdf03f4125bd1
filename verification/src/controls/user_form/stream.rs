//! The words of a form stream that say what follows them: property masks,
//! the packed site list, and the class cache index.
use vstd::prelude::*;
use crate::controls::user_form::ole_site_concrete::Clsid;

verus! {

/// The properties of a form that are not the file format default. A bit of zero says that the property has its default and is not stored.
#[derive(Clone, Copy, Debug, PartialEq, Eq, Hash, Structural)]
pub struct FormPropMask {
    pub bits: u32,
}

impl FormPropMask {
    /// Whether the back color is stored in the data block.
    pub const BACK_COLOR: u32 = 0x00000002;
    /// Whether the fore color is stored in the data block.
    pub const FORE_COLOR: u32 = 0x00000004;
    /// Whether the next available id is stored in the data block.
    pub const NEXT_AVAILABLE_ID: u32 = 0x00000008;
    /// Whether the Boolean properties are stored in the data block.
    pub const BOOLEAN_PROPERTIES: u32 = 0x00000040;
    /// Whether the border style is stored in the data block.
    pub const BORDER_STYLE: u32 = 0x00000080;
    /// Whether the mouse pointer is stored in the data block.
    pub const MOUSE_POINTER: u32 = 0x00000100;
    /// Whether the scroll bar flags are stored in the data block.
    pub const SCROLL_BARS: u32 = 0x00000200;
    /// Whether the displayed size is stored in the extra data block.
    pub const DISPLAYED_SIZE: u32 = 0x00000400;
    /// Whether the logical size is stored in the extra data block.
    pub const LOGICAL_SIZE: u32 = 0x00000800;
    /// Whether the scroll position is stored in the extra data block.
    pub const SCROLL_POSITION: u32 = 0x00001000;
    /// Whether the group count is stored in the data block.
    pub const GROUP_CNT: u32 = 0x00002000;
    /// Whether the mouse icon is stored in the stream data; its slot in the data block then holds `0xFFFF`.
    pub const MOUSE_ICON: u32 = 0x00008000;
    /// Whether the cycle is stored in the data block.
    pub const CYCLE: u32 = 0x00010000;
    /// Whether the special effect is stored in the data block.
    pub const SPECIAL_EFFECT: u32 = 0x00020000;
    /// Whether the border color is stored in the data block.
    pub const BORDER_COLOR: u32 = 0x00040000;
    /// Whether the length and compression of the caption are stored in the data block and its text in the extra data block.
    pub const CAPTION: u32 = 0x00080000;
    /// Whether the font is stored in the stream data; its slot in the data block then holds `0xFFFF`.
    pub const FONT: u32 = 0x00100000;
    /// Whether the picture is stored in the stream data; its slot in the data block then holds `0xFFFF`.
    pub const PICTURE: u32 = 0x00200000;
    /// Whether the zoom is stored in the data block.
    pub const ZOOM: u32 = 0x00400000;
    /// Whether the picture alignment is stored in the data block.
    pub const PICTURE_ALIGNMENT: u32 = 0x00800000;
    /// Whether the picture is tiled; this bit is the value itself.
    pub const PICTURE_TILING: u32 = 0x01000000;
    /// Whether the picture size mode is stored in the data block.
    pub const PICTURE_SIZE_MODE: u32 = 0x02000000;
    /// Whether the shape cookie is stored in the data block.
    pub const SHAPE_COOKIE: u32 = 0x04000000;
    /// Whether the draw buffer is stored in the data block.
    pub const DRAW_BUFFER: u32 = 0x08000000;
    /// Every declared bit.
    pub const ALL: u32 = 0x0FFFBFCE;

    /// The set with exactly the bits of `bits`, unless one of them is not declared.
    pub fn from_bits(bits: u32) -> (r: Option<FormPropMask>)
        ensures
            r == (if bits & !FormPropMask::ALL == 0 {
                Some(FormPropMask { bits })
            } else {
                None
            }),
    {
        if bits & !FormPropMask::ALL == 0 {
            Some(FormPropMask { bits })
        } else {
            None
        }
    }

    /// The raw bits.
    #[verifier::allow_in_spec]
    pub fn bits(&self) -> (r: u32)
        returns
            self.bits,
    {
        self.bits
    }

    /// Whether every bit of `flags` is set.
    #[verifier::allow_in_spec]
    pub fn contains(&self, flags: u32) -> (r: bool)
        returns
            (self.bits & flags == flags),
    {
        self.bits & flags == flags
    }
}

/// The properties of a class table entry that are not the file format default.
#[derive(Clone, Copy, Debug, PartialEq, Eq, Hash, Structural)]
pub struct ClassInfoPropMask {
    pub bits: u32,
}

impl ClassInfoPropMask {
    /// Whether the class id is stored in the extra data block.
    pub const CLS_ID: u32 = 0x00000001;
    /// Whether the source interface is stored in the extra data block.
    pub const DISP_EVENT: u32 = 0x00000002;
    /// Whether the default interface is stored in the extra data block.
    pub const DEFAULT_PROC: u32 = 0x00000008;
    /// Whether the class table flags and the variable flags are stored in the data block.
    pub const CLASS_FLAGS: u32 = 0x00000010;
    /// Whether the count of methods is stored in the data block.
    pub const COUNT_OF_METHODS: u32 = 0x00000020;
    /// Whether the dispatch id of the bindable property is stored in the data block.
    pub const DISPID_BIND: u32 = 0x00000040;
    /// Whether the index of the "get" function of the bindable property is stored.
    pub const GET_BIND_INDEX: u32 = 0x00000080;
    /// Whether the index of the "put" function of the bindable property is stored.
    pub const PUT_BIND_INDEX: u32 = 0x00000100;
    /// Whether the type of the bindable property is stored.
    pub const BIND_TYPE: u32 = 0x00000200;
    /// Whether the index of the function that retrieves the value is stored.
    pub const GET_VALUE_INDEX: u32 = 0x00000400;
    /// Whether the index of the function that sets the value is stored.
    pub const PUT_VALUE_INDEX: u32 = 0x00000800;
    /// Whether the type of the value is stored.
    pub const VALUE_TYPE: u32 = 0x00001000;
    /// Whether the dispatch id of the row set property is stored.
    pub const DISPID_ROWSET: u32 = 0x00002000;
    /// Whether the index of the "set" function of the row set property is stored.
    pub const SET_ROWSET: u32 = 0x00004000;
    /// Every declared bit.
    pub const ALL: u32 = 0x00007FFB;

    /// The set with exactly the bits of `bits`, unless one of them is not declared.
    pub fn from_bits(bits: u32) -> (r: Option<ClassInfoPropMask>)
        ensures
            r == (if bits & !ClassInfoPropMask::ALL == 0 {
                Some(ClassInfoPropMask { bits })
            } else {
                None
            }),
    {
        if bits & !ClassInfoPropMask::ALL == 0 {
            Some(ClassInfoPropMask { bits })
        } else {
            None
        }
    }

    /// The raw bits.
    #[verifier::allow_in_spec]
    pub fn bits(&self) -> (r: u32)
        returns
            self.bits,
    {
        self.bits
    }

    /// Whether every bit of `flags` is set.
    #[verifier::allow_in_spec]
    pub fn contains(&self, flags: u32) -> (r: bool)
        returns
            (self.bits & flags == flags),
    {
        self.bits & flags == flags
    }
}

/// The properties of a site that are not the file format default.
#[derive(Clone, Copy, Debug, PartialEq, Eq, Hash, Structural)]
pub struct SitePropMask {
    pub bits: u32,
}

impl SitePropMask {
    /// Whether the name is stored: its length and compression in the data block, its text in the extra data block.
    pub const NAME: u32 = 0x00000001;
    /// Whether the tag is stored: its length and compression in the data block, its text in the extra data block.
    pub const TAG: u32 = 0x00000002;
    /// Whether the id is stored in the data block.
    pub const ID: u32 = 0x00000004;
    /// Whether the help context id is stored in the data block.
    pub const HELP_CONTEXT_ID: u32 = 0x00000008;
    /// Whether the bit flags are stored in the data block.
    pub const BIT_FLAGS: u32 = 0x00000010;
    /// Whether the object stream size is stored in the data block.
    pub const OBJECT_STREAM_SIZE: u32 = 0x00000020;
    /// Whether the tab index is stored in the data block.
    pub const TAB_INDEX: u32 = 0x00000040;
    /// Whether the class cache index is stored in the data block.
    pub const CLSID_CACHE_INDEX: u32 = 0x00000080;
    /// Whether the position is stored in the extra data block.
    pub const POSITION: u32 = 0x00000100;
    /// Whether the group id is stored in the data block.
    pub const GROUP_ID: u32 = 0x00000200;
    /// Whether the tooltip is stored.
    pub const CONTROL_TIP_TEXT: u32 = 0x00000800;
    /// Whether the license key is stored.
    pub const RUNTIME_LIC_KEY: u32 = 0x00001000;
    /// Whether the control source is stored.
    pub const CONTROL_SOURCE: u32 = 0x00002000;
    /// Whether the row source is stored.
    pub const ROW_SOURCE: u32 = 0x00004000;
    /// Every declared bit.
    pub const ALL: u32 = 0x00007BFF;

    /// The set with exactly the bits of `bits`, unless one of them is not declared.
    pub fn from_bits(bits: u32) -> (r: Option<SitePropMask>)
        ensures
            r == (if bits & !SitePropMask::ALL == 0 {
                Some(SitePropMask { bits })
            } else {
                None
            }),
    {
        if bits & !SitePropMask::ALL == 0 {
            Some(SitePropMask { bits })
        } else {
            None
        }
    }

    /// The raw bits.
    #[verifier::allow_in_spec]
    pub fn bits(&self) -> (r: u32)
        returns
            self.bits,
    {
        self.bits
    }

    /// Whether every bit of `flags` is set.
    #[verifier::allow_in_spec]
    pub fn contains(&self, flags: u32) -> (r: bool)
        returns
            (self.bits & flags == flags),
    {
        self.bits & flags == flags
    }
}

/// The second byte of a site list entry: the type of one site, or the count of sites of the type that follows.
#[derive(Clone, Copy, Debug, PartialEq, Eq, Hash, Structural)]
pub struct TypeOrCount {
    pub bits: u8,
}

impl TypeOrCount {
    /// The type or the count.
    pub const TYPE_OR_COUNT: u8 = 0x7F;
    /// Whether the low bits are a count.
    pub const IS_COUNT: u8 = 0x80;
    /// Every declared bit.
    pub const ALL: u8 = 0xFF;

    /// The set with exactly the bits of `bits`, unless one of them is not declared.
    pub fn from_bits(bits: u8) -> (r: Option<TypeOrCount>)
        ensures
            r == (if bits & !TypeOrCount::ALL == 0 {
                Some(TypeOrCount { bits })
            } else {
                None
            }),
    {
        if bits & !TypeOrCount::ALL == 0 {
            Some(TypeOrCount { bits })
        } else {
            None
        }
    }

    /// The raw bits.
    #[verifier::allow_in_spec]
    pub fn bits(&self) -> (r: u8)
        returns
            self.bits,
    {
        self.bits
    }

    /// Whether every bit of `flags` is set.
    #[verifier::allow_in_spec]
    pub fn contains(&self, flags: u8) -> (r: bool)
        returns
            (self.bits & flags == flags),
    {
        self.bits & flags == flags
    }
}

/// The type of a concrete site.
#[derive(Clone, Copy, Debug, PartialEq, Eq, Hash, Structural)]
pub enum SiteType {
    /// A site that embeds an OLE control.
    Ole,
}

impl SiteType {
    /// The type with the given number, if one is declared.
    pub open spec fn spec_from_u8(v: u8) -> Option<SiteType> {
        if v == 1 {
            Some(SiteType::Ole)
        } else {
            None
        }
    }

    /// The type with the given number; `None` for a number that is not declared.
    #[verifier::when_used_as_spec(spec_from_u8)]
    pub fn from_u8(v: u8) -> (r: Option<SiteType>)
        ensures
            r == SiteType::spec_from_u8(v),
    {
        if v == 1 {
            Some(SiteType::Ole)
        } else {
            None
        }
    }

    /// The number of the type.
    #[verifier::allow_in_spec]
    pub fn to_u8(self) -> (r: u8)
        returns
            1u8,
    {
        1
    }
}

/// The depth and type of a site.
#[derive(Clone, Copy, Debug, PartialEq, Eq, Hash, Structural)]
pub struct SiteDepthAndType {
    /// The depth of the site in the tree of controls.
    pub depth: u8,
    /// The type of the site.
    pub site_type: SiteType,
}

/// The class cache index of a site as it is stored: `0x7FFF` is invalid, a
/// set high bit says that the low 15 bits index the class table of the form,
/// and any other value indexes the cached classes.
#[derive(Clone, Copy, Debug, PartialEq, Eq, Hash, Structural)]
pub struct ClsidCacheIndex {
    pub bits: u16,
}

impl ClsidCacheIndex {
    pub const INVALID: u16 = 0x7FFF;
    pub const INDEX_MASK: u16 = 0x7FFF;
    pub const IS_FROM_CLASS_TABLE: u16 = 0x8000;

    /// Every word is a class cache index.
    pub fn from_bits(bits: u16) -> (r: Option<ClsidCacheIndex>)
        ensures
            r == Some(ClsidCacheIndex { bits }),
    {
        Some(ClsidCacheIndex { bits })
    }

    /// What the index refers to.
    pub open spec fn spec_clsid(self) -> Clsid {
        if self.bits >= ClsidCacheIndex::IS_FROM_CLASS_TABLE {
            Clsid::ClassTable((self.bits - ClsidCacheIndex::IS_FROM_CLASS_TABLE) as u16)
        } else if self.bits == ClsidCacheIndex::INVALID {
            Clsid::Invalid
        } else {
            Clsid::Global(self.bits)
        }
    }

    /// What the index refers to.
    #[verifier::when_used_as_spec(spec_clsid)]
    pub fn clsid(self) -> (r: Clsid)
        ensures
            r == self.spec_clsid(),
    {
        if self.bits >= ClsidCacheIndex::IS_FROM_CLASS_TABLE {
            Clsid::ClassTable(self.bits - ClsidCacheIndex::IS_FROM_CLASS_TABLE)
        } else if self.bits == ClsidCacheIndex::INVALID {
            Clsid::Invalid
        } else {
            Clsid::Global(self.bits)
        }
    }
}

impl From<ClsidCacheIndex> for Clsid {
    fn from(v: ClsidCacheIndex) -> (r: Clsid) {
        v.clsid()
    }
}

impl vstd::std_specs::convert::FromSpecImpl<ClsidCacheIndex> for Clsid {
    open spec fn obeys_from_spec() -> bool {
        true
    }

    open spec fn from_spec(v: ClsidCacheIndex) -> Clsid {
        v.spec_clsid()
    }
}

} // verus!
