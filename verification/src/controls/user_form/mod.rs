//! The form control: the root record of the form stream.
//!
//! A form stream holds the properties of the form itself, the class table of
//! embedded controls that are not among the cached classes, the packed list
//! of site depths and types, and one site for each embedded control.
pub mod class_table;
pub mod designex;
pub mod ole_site_concrete;
pub mod parser;
pub mod stream;

pub use ole_site_concrete::parser::{parse_ole_site_concrete, parse_ole_site_concrete_header};
pub use parser::{
    parse_form_control, parse_form_control_header, parse_site_class_info,
    parse_site_class_info_header, parse_site_depths_and_types, parse_sites,
};

use vstd::prelude::*;
use crate::common::props::{variant_known, Variant};
use crate::controls::user_form::class_table::SiteClassInfo;
use crate::controls::user_form::ole_site_concrete::{OleSiteConcrete, OleSiteConcreteModel};
use crate::properties::color::OleColor;
use crate::properties::font::{GuidAndFont, GuidAndFontModel};
use crate::properties::picture::{GuidAndPicture, GuidAndPictureModel};
use crate::properties::{
    MousePointer, PictureAlignment, PictureSizeMode, Position, Size, SpecialEffect,
};

verus! {

/// Boolean properties of a form.
#[derive(Clone, Copy, Debug, PartialEq, Eq, Hash, Structural)]
pub struct FormFlags {
    pub bits: u32,
}

impl FormFlags {
    /// Whether the form is enabled.
    pub const ENABLED: u32 = 0x00000004;
    /// Whether design extender properties are persisted with this form.
    pub const DESINKPERSISTED: u32 = 0x00004000;
    /// Whether the class table of the form is not persisted.
    pub const DONTSAVECLASSTABLE: u32 = 0x00008000;
    /// Every declared bit.
    pub const ALL: u32 = 0x0000C004;

    /// The set with exactly the bits of `bits`, unless one of them is not declared.
    pub fn from_bits(bits: u32) -> (r: Option<FormFlags>)
        ensures
            r == (if bits & !FormFlags::ALL == 0 {
                Some(FormFlags { bits })
            } else {
                None
            }),
    {
        if bits & !FormFlags::ALL == 0 {
            Some(FormFlags { bits })
        } else {
            None
        }
    }

    /// The raw bits.
    #[verifier::allow_in_spec]
    pub fn bits(&self) -> (r: u32)
        returns
            self.bits,
    {
        self.bits
    }

    /// Whether every bit of `flags` is set.
    #[verifier::allow_in_spec]
    pub fn contains(&self, flags: u32) -> (r: bool)
        returns
            (self.bits & flags == flags),
    {
        self.bits & flags == flags
    }
}

/// The border of a control.
#[derive(Clone, Copy, Debug, PartialEq, Eq, Hash, Structural)]
pub enum BorderStyle {
    /// The control has no visible border line.
    NoBorder,
    /// The control has a single-line border.
    Single,
}

impl BorderStyle {
    /// The value with the given number, if one is declared.
    pub open spec fn spec_from_u8(v: u8) -> Option<BorderStyle> {
        if v == 0 {
            Some(BorderStyle::NoBorder)
        } else if v == 1 {
            Some(BorderStyle::Single)
        } else {
            None
        }
    }

    /// The number of the value.
    pub open spec fn spec_to_u8(self) -> u8 {
        match self {
            BorderStyle::NoBorder => 0,
            BorderStyle::Single => 1,
        }
    }

    /// The value with the given number; `None` for a number that is not declared.
    #[verifier::when_used_as_spec(spec_from_u8)]
    pub fn from_u8(v: u8) -> (r: Option<BorderStyle>)
        ensures
            r == BorderStyle::spec_from_u8(v),
            r.is_some() == variant_known(Variant::BorderStyle, v as u32),
            r matches Some(x) ==> x.spec_to_u8() == v,
    {
        if v == 0 {
            Some(BorderStyle::NoBorder)
        } else if v == 1 {
            Some(BorderStyle::Single)
        } else {
            None
        }
    }

    /// The number of the value.
    #[verifier::when_used_as_spec(spec_to_u8)]
    pub fn to_u8(self) -> (r: u8)
        ensures
            r == self.spec_to_u8(),
            BorderStyle::spec_from_u8(r) == Some(self),
    {
        match self {
            BorderStyle::NoBorder => 0,
            BorderStyle::Single => 1,
        }
    }
}

/// The behavior of the TAB key in the last control of a form.
#[derive(Clone, Copy, Debug, PartialEq, Eq, Hash, Structural)]
pub enum Cycle {
    /// The focus is next set to the first control on the next form.
    AllForms,
    /// The focus is next set to the first control on this form.
    CurrentForm,
}

impl Cycle {
    /// The value with the given number, if one is declared.
    pub open spec fn spec_from_u8(v: u8) -> Option<Cycle> {
        if v == 0 {
            Some(Cycle::AllForms)
        } else if v == 2 {
            Some(Cycle::CurrentForm)
        } else {
            None
        }
    }

    /// The number of the value.
    pub open spec fn spec_to_u8(self) -> u8 {
        match self {
            Cycle::AllForms => 0,
            Cycle::CurrentForm => 2,
        }
    }

    /// The value with the given number; `None` for a number that is not declared.
    #[verifier::when_used_as_spec(spec_from_u8)]
    pub fn from_u8(v: u8) -> (r: Option<Cycle>)
        ensures
            r == Cycle::spec_from_u8(v),
            r.is_some() == variant_known(Variant::Cycle, v as u32),
            r matches Some(x) ==> x.spec_to_u8() == v,
    {
        if v == 0 {
            Some(Cycle::AllForms)
        } else if v == 2 {
            Some(Cycle::CurrentForm)
        } else {
            None
        }
    }

    /// The number of the value.
    #[verifier::when_used_as_spec(spec_to_u8)]
    pub fn to_u8(self) -> (r: u8)
        ensures
            r == self.spec_to_u8(),
            Cycle::spec_from_u8(r) == Some(self),
    {
        match self {
            Cycle::AllForms => 0,
            Cycle::CurrentForm => 2,
        }
    }
}

/// The scroll bars of a form and when to display them.
#[derive(Clone, Copy, Debug, PartialEq, Eq, Hash, Structural)]
pub struct FormScrollBarFlags {
    pub bits: u8,
}

impl FormScrollBarFlags {
    /// Whether the horizontal scroll bar is displayed.
    pub const HORIZONTAL: u8 = 0x01;
    /// Whether the vertical scroll bar is displayed.
    pub const VERTICAL: u8 = 0x02;
    /// Whether to display the horizontal scroll bar at all times.
    pub const KEEP_HORIZONTAL: u8 = 0x04;
    /// Whether to display the vertical scroll bar at all times.
    pub const KEEP_VERTICAL: u8 = 0x08;
    /// Whether to display the vertical scroll bar on the left side of the form.
    pub const KEEP_LEFT: u8 = 0x10;
    /// Every declared bit.
    pub const ALL: u8 = 0x1F;

    /// The set with exactly the bits of `bits`, unless one of them is not declared.
    pub fn from_bits(bits: u8) -> (r: Option<FormScrollBarFlags>)
        ensures
            r == (if bits & !FormScrollBarFlags::ALL == 0 {
                Some(FormScrollBarFlags { bits })
            } else {
                None
            }),
    {
        if bits & !FormScrollBarFlags::ALL == 0 {
            Some(FormScrollBarFlags { bits })
        } else {
            None
        }
    }

    /// The raw bits.
    #[verifier::allow_in_spec]
    pub fn bits(&self) -> (r: u8)
        returns
            self.bits,
    {
        self.bits
    }

    /// Whether every bit of `flags` is set.
    #[verifier::allow_in_spec]
    pub fn contains(&self, flags: u8) -> (r: bool)
        returns
            (self.bits & flags == flags),
    {
        self.bits & flags == flags
    }

    /// The file format default: both scroll bars are kept.
    pub const DEFAULT: u8 = 0x0C;
}

/// The kinds of site.
#[derive(Clone, Debug, PartialEq, Eq)]
pub enum SiteKind {
    /// A site that embeds an OLE control.
    Ole(OleSiteConcrete),
}

/// The mathematical value of a [`SiteKind`].
pub enum SiteKindModel {
    Ole(OleSiteConcreteModel),
}

impl View for SiteKind {
    type V = SiteKindModel;

    open spec fn view(&self) -> SiteKindModel {
        match self {
            SiteKind::Ole(site) => SiteKindModel::Ole(site@),
        }
    }
}

/// A site of a form and its depth in the tree of controls.
#[derive(Clone, Debug, PartialEq, Eq)]
pub struct Site {
    pub kind: SiteKind,
    pub depth: u8,
}

/// The mathematical value of a [`Site`].
pub struct SiteModel {
    pub kind: SiteKindModel,
    pub depth: u8,
}

impl View for Site {
    type V = SiteModel;

    open spec fn view(&self) -> SiteModel {
        SiteModel { kind: self.kind@, depth: self.depth }
    }
}

impl Site {
    /// The site record.
    pub open spec fn spec_ole(&self) -> OleSiteConcrete {
        match self.kind {
            SiteKind::Ole(site) => site,
        }
    }

    /// The site record.
    pub fn ole(&self) -> (site: &OleSiteConcrete)
        ensures
            *site == self.spec_ole(),
    {
        match &self.kind {
            SiteKind::Ole(site) => site,
        }
    }
}

/// The values of a sequence of sites.
pub open spec fn sites_view(sites: Seq<Site>) -> Seq<SiteModel> {
    Seq::new(sites.len(), |i: int| sites[i]@)
}

/// A decoded form.
#[derive(Clone, Debug, PartialEq, Eq)]
pub struct FormControl {
    /// Default: the system color of button faces.
    pub back_color: OleColor,
    /// Default: the system color of button text.
    pub fore_color: OleColor,
    /// The largest id that an embedded control of the form has used. Default `0`.
    pub next_available_id: u32,
    /// Default: enabled.
    pub boolean_properties: FormFlags,
    /// Default: no border.
    pub border_style: BorderStyle,
    /// Default: the standard pointer.
    pub mouse_pointer: MousePointer,
    /// Default: both scroll bars are kept.
    pub scroll_bars: FormScrollBarFlags,
    /// The number of control groups on the form. Default `0`.
    pub group_count: u32,
    /// Default: all forms.
    pub cycle: Cycle,
    /// Default: flat.
    pub special_effect: SpecialEffect,
    /// Default: the system color of button text.
    pub border_color: OleColor,
    /// The magnification of embedded controls in percent, from 10 through 400. Default `100`.
    pub zoom: u32,
    /// Default `0`.
    pub draw_buffer: u32,
    /// Default: center.
    pub picture_alignment: PictureAlignment,
    /// Default: clip.
    pub picture_size_mode: PictureSizeMode,
    /// The number of times the dynamic type information of the form has changed. Default `0`.
    pub shape_cookie: u32,
    /// Default `(4000, 3000)`.
    pub displayed_size: Size,
    /// The full scrollable size of the form. A component of zero says that
    /// the scrollable size is that of the displayed size. Default `(4000, 3000)`.
    pub logical_size: Size,
    /// The first point of the logical size that is visible. Default `(0, 0)`.
    pub scroll_position: Position,
    /// Default: empty.
    pub caption: String,
    /// The custom mouse pointer. The decoder leaves it empty.
    pub mouse_icon: GuidAndPicture,
    /// Default: no font.
    pub font: GuidAndFont,
    /// The picture of the form. The decoder leaves it empty.
    pub picture: GuidAndPicture,
    /// Whether the picture is tiled across the background. Default `false`.
    pub picture_tiling: bool,
    /// The sites of all embedded controls, in file order.
    pub sites: Vec<Site>,
    /// The class table.
    pub site_classes: Vec<SiteClassInfo>,
}

impl FormControl {
    /// The full scrollable size of the form: a component of the logical size
    /// that is zero stands for that component of the displayed size.
    pub fn scrollable_size(&self) -> (s: Size)
        ensures
            s.width == (if self.logical_size.width == 0 {
                self.displayed_size.width
            } else {
                self.logical_size.width
            }),
            s.height == (if self.logical_size.height == 0 {
                self.displayed_size.height
            } else {
                self.logical_size.height
            }),
    {
        Size {
            width: if self.logical_size.width == 0 {
                self.displayed_size.width
            } else {
                self.logical_size.width
            },
            height: if self.logical_size.height == 0 {
                self.displayed_size.height
            } else {
                self.logical_size.height
            },
        }
    }
}

/// The mathematical value of a [`FormControl`].
pub struct FormControlModel {
    pub back_color: OleColor,
    pub fore_color: OleColor,
    pub next_available_id: u32,
    pub boolean_properties: FormFlags,
    pub border_style: BorderStyle,
    pub mouse_pointer: MousePointer,
    pub scroll_bars: FormScrollBarFlags,
    pub group_count: u32,
    pub cycle: Cycle,
    pub special_effect: SpecialEffect,
    pub border_color: OleColor,
    pub zoom: u32,
    pub draw_buffer: u32,
    pub picture_alignment: PictureAlignment,
    pub picture_size_mode: PictureSizeMode,
    pub shape_cookie: u32,
    pub displayed_size: Size,
    pub logical_size: Size,
    pub scroll_position: Position,
    pub caption: Seq<char>,
    pub mouse_icon: GuidAndPictureModel,
    pub font: GuidAndFontModel,
    pub picture: GuidAndPictureModel,
    pub picture_tiling: bool,
    pub sites: Seq<SiteModel>,
    pub site_classes: Seq<SiteClassInfo>,
}

impl View for FormControl {
    type V = FormControlModel;

    open spec fn view(&self) -> FormControlModel {
        FormControlModel {
            back_color: self.back_color,
            fore_color: self.fore_color,
            next_available_id: self.next_available_id,
            boolean_properties: self.boolean_properties,
            border_style: self.border_style,
            mouse_pointer: self.mouse_pointer,
            scroll_bars: self.scroll_bars,
            group_count: self.group_count,
            cycle: self.cycle,
            special_effect: self.special_effect,
            border_color: self.border_color,
            zoom: self.zoom,
            draw_buffer: self.draw_buffer,
            picture_alignment: self.picture_alignment,
            picture_size_mode: self.picture_size_mode,
            shape_cookie: self.shape_cookie,
            displayed_size: self.displayed_size,
            logical_size: self.logical_size,
            scroll_position: self.scroll_position,
            caption: self.caption@,
            mouse_icon: self.mouse_icon@,
            font: self.font@,
            picture: self.picture@,
            picture_tiling: self.picture_tiling,
            sites: sites_view(self.sites@),
            site_classes: self.site_classes@,
        }
    }
}

} // verus!
