//! The site of an embedded control: its placement and metadata within a form.
pub mod parser;

pub use parser::{parse_ole_site_concrete, parse_ole_site_concrete_header};

use vstd::prelude::*;
use crate::properties::Position;

verus! {

/// Boolean properties of an embedded control on a form.
#[derive(Clone, Copy, Debug, PartialEq, Eq, Hash, Structural)]
pub struct SiteFlags {
    pub bits: u32,
}

impl SiteFlags {
    /// Whether the control can receive focus while the user is navigating controls using the TAB key.
    pub const TAB_STOP: u32 = 0x00000001;
    /// Whether the control is displayed.
    pub const VISIBLE: u32 = 0x00000002;
    /// Whether the control is the default option on the form.
    pub const DEFAULT: u32 = 0x00000004;
    /// Whether the control is the cancel option on the form.
    pub const CANCEL: u32 = 0x00000008;
    /// Whether the control is stored in the object stream of the form; zero says that it has its own storage.
    pub const STREAMED: u32 = 0x00000010;
    /// Whether the control automatically resizes to display its entire contents.
    pub const AUTO_SIZE: u32 = 0x00000020;
    /// Whether to preserve the height of a control when resizing.
    pub const PRESERVE_HEIGHT: u32 = 0x00000100;
    /// Whether to adjust the size of a control when the size of its parent changes.
    pub const FIT_TO_PARENT: u32 = 0x00000200;
    /// Whether to select the first child of a container control when the user navigates to the container.
    pub const SELECT_CHILD: u32 = 0x00002000;
    /// Whether child controls are identified as child objects of the control or of its parent.
    pub const PROMOTE_CONTROLS: u32 = 0x00040000;
    /// Every declared bit.
    pub const ALL: u32 = 0x0004233F;

    /// The set with exactly the bits of `bits`, unless one of them is not declared.
    pub fn from_bits(bits: u32) -> (r: Option<SiteFlags>)
        ensures
            r == (if bits & !SiteFlags::ALL == 0 {
                Some(SiteFlags { bits })
            } else {
                None
            }),
    {
        if bits & !SiteFlags::ALL == 0 {
            Some(SiteFlags { bits })
        } else {
            None
        }
    }

    /// The raw bits.
    #[verifier::allow_in_spec]
    pub fn bits(&self) -> (r: u32)
        returns
            self.bits,
    {
        self.bits
    }

    /// Whether every bit of `flags` is set.
    #[verifier::allow_in_spec]
    pub fn contains(&self, flags: u32) -> (r: bool)
        returns
            (self.bits & flags == flags),
    {
        self.bits & flags == flags
    }
}

/// What a class cache index refers to.
#[derive(Clone, Copy, Debug, PartialEq, Eq, Hash, Structural)]
pub enum Clsid {
    /// An entry of the class table of the form.
    ClassTable(u16),
    /// No class.
    Invalid,
    /// An entry of the global table of cached classes.
    Global(u16),
}

/// The properties stored for each embedded control of a form.
#[derive(Clone, Debug, PartialEq, Eq)]
pub struct OleSiteConcrete {
    /// Default `0`.
    pub id: i32,
    /// Default `0`.
    pub help_context_id: i32,
    /// Default: tab stop, visible, streamed and auto size.
    pub bit_flags: SiteFlags,
    /// The size, in bytes, of the control in the object stream of the form. Default `0`.
    pub object_stream_size: u32,
    /// The index of the control in the tab order of the form; a negative value
    /// is no valid index. Default `-1`.
    pub tab_index: i16,
    /// The class of the control. Default: invalid.
    pub clsid_cache_index: Clsid,
    /// The control group of the control; `None` when the stored id is zero,
    /// which says that the control is in no group.
    pub group_id: Option<u16>,
    /// The name of the control. Default: empty.
    pub name: String,
    /// Data that the user attached to the control. Default: empty.
    pub tag: String,
    /// The top-left corner of the control, relative to the top-left corner of
    /// the logical size of the form. Default `(0, 0)`.
    pub site_position: Position,
    /// The tooltip of the control. Default: empty.
    pub control_tip_text: String,
    /// The license key of the control. Default: empty.
    pub runtime_lic_key: String,
    /// The cell of a worksheet that the value of the control is bound to. Default: empty.
    pub control_source: String,
    /// The source of the list of values of the control. Default: empty.
    pub row_source: String,
}

/// The mathematical value of an [`OleSiteConcrete`].
pub struct OleSiteConcreteModel {
    pub id: i32,
    pub help_context_id: i32,
    pub bit_flags: SiteFlags,
    pub object_stream_size: u32,
    pub tab_index: i16,
    pub clsid_cache_index: Clsid,
    pub group_id: Option<u16>,
    pub name: Seq<char>,
    pub tag: Seq<char>,
    pub site_position: Position,
    pub control_tip_text: Seq<char>,
    pub runtime_lic_key: Seq<char>,
    pub control_source: Seq<char>,
    pub row_source: Seq<char>,
}

impl View for OleSiteConcrete {
    type V = OleSiteConcreteModel;

    open spec fn view(&self) -> OleSiteConcreteModel {
        OleSiteConcreteModel {
            id: self.id,
            help_context_id: self.help_context_id,
            bit_flags: self.bit_flags,
            object_stream_size: self.object_stream_size,
            tab_index: self.tab_index,
            clsid_cache_index: self.clsid_cache_index,
            group_id: self.group_id,
            name: self.name@,
            tag: self.tag@,
            site_position: self.site_position,
            control_tip_text: self.control_tip_text@,
            runtime_lic_key: self.runtime_lic_key@,
            control_source: self.control_source@,
            row_source: self.row_source@,
        }
    }
}

} // verus!
