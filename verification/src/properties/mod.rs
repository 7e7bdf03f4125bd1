//! Property types that more than one control uses.
pub mod color;
pub mod font;
pub mod parser;
pub mod picture;
pub mod string;

use vstd::prelude::*;
use crate::common::props::{variant_known, Variant};
use crate::controls::user_form::class_table::SiteClassInfo;

verus! {

/// An unsigned integer that specifies the type of icon displayed as the mouse pointer for the control.
#[derive(Clone, Copy, Debug, PartialEq, Eq, Hash, Structural)]
pub enum MousePointer {
    /// Standard pointer.
    Default,
    /// Arrow.
    Arrow,
    /// Cross-hair pointer.
    Cross,
    /// I-beam.
    IBeam,
    /// Double arrow pointing northeast and southwest.
    SizeNESW,
    /// Double arrow pointing north and south.
    SizeNS,
    /// Double arrow pointing northwest and southeast.
    SizeNWSE,
    /// Double arrow pointing west and east.
    SizeWE,
    /// Up arrow.
    UpArrow,
    /// Hourglass.
    HourGlass,
    /// "Not" symbol on top of the object being dragged.
    NoDrop,
    /// Arrow with an hourglass.
    AppStarting,
    /// Arrow with a question mark.
    Help,
    /// "Size-all" cursor.
    SizeAll,
    /// Uses the icon specified by the MouseIcon property.
    Custom,
}

impl MousePointer {
    /// The value with the given number, if one is declared.
    pub open spec fn spec_from_u8(v: u8) -> Option<MousePointer> {
        if v == 0 {
            Some(MousePointer::Default)
        } else if v == 1 {
            Some(MousePointer::Arrow)
        } else if v == 2 {
            Some(MousePointer::Cross)
        } else if v == 3 {
            Some(MousePointer::IBeam)
        } else if v == 6 {
            Some(MousePointer::SizeNESW)
        } else if v == 7 {
            Some(MousePointer::SizeNS)
        } else if v == 8 {
            Some(MousePointer::SizeNWSE)
        } else if v == 9 {
            Some(MousePointer::SizeWE)
        } else if v == 10 {
            Some(MousePointer::UpArrow)
        } else if v == 11 {
            Some(MousePointer::HourGlass)
        } else if v == 12 {
            Some(MousePointer::NoDrop)
        } else if v == 13 {
            Some(MousePointer::AppStarting)
        } else if v == 14 {
            Some(MousePointer::Help)
        } else if v == 15 {
            Some(MousePointer::SizeAll)
        } else if v == 99 {
            Some(MousePointer::Custom)
        } else {
            None
        }
    }

    /// The number of the value.
    pub open spec fn spec_to_u8(self) -> u8 {
        match self {
            MousePointer::Default => 0,
            MousePointer::Arrow => 1,
            MousePointer::Cross => 2,
            MousePointer::IBeam => 3,
            MousePointer::SizeNESW => 6,
            MousePointer::SizeNS => 7,
            MousePointer::SizeNWSE => 8,
            MousePointer::SizeWE => 9,
            MousePointer::UpArrow => 10,
            MousePointer::HourGlass => 11,
            MousePointer::NoDrop => 12,
            MousePointer::AppStarting => 13,
            MousePointer::Help => 14,
            MousePointer::SizeAll => 15,
            MousePointer::Custom => 99,
        }
    }

    /// The value with the given number; `None` for a number that is not declared.
    #[verifier::when_used_as_spec(spec_from_u8)]
    pub fn from_u8(v: u8) -> (r: Option<MousePointer>)
        ensures
            r == MousePointer::spec_from_u8(v),
            r.is_some() == variant_known(Variant::MousePointer, v as u32),
            r matches Some(x) ==> x.spec_to_u8() == v,
    {
        if v == 0 {
            Some(MousePointer::Default)
        } else if v == 1 {
            Some(MousePointer::Arrow)
        } else if v == 2 {
            Some(MousePointer::Cross)
        } else if v == 3 {
            Some(MousePointer::IBeam)
        } else if v == 6 {
            Some(MousePointer::SizeNESW)
        } else if v == 7 {
            Some(MousePointer::SizeNS)
        } else if v == 8 {
            Some(MousePointer::SizeNWSE)
        } else if v == 9 {
            Some(MousePointer::SizeWE)
        } else if v == 10 {
            Some(MousePointer::UpArrow)
        } else if v == 11 {
            Some(MousePointer::HourGlass)
        } else if v == 12 {
            Some(MousePointer::NoDrop)
        } else if v == 13 {
            Some(MousePointer::AppStarting)
        } else if v == 14 {
            Some(MousePointer::Help)
        } else if v == 15 {
            Some(MousePointer::SizeAll)
        } else if v == 99 {
            Some(MousePointer::Custom)
        } else {
            None
        }
    }

    /// The number of the value.
    #[verifier::when_used_as_spec(spec_to_u8)]
    pub fn to_u8(self) -> (r: u8)
        ensures
            r == self.spec_to_u8(),
            MousePointer::spec_from_u8(r) == Some(self),
    {
        match self {
            MousePointer::Default => 0,
            MousePointer::Arrow => 1,
            MousePointer::Cross => 2,
            MousePointer::IBeam => 3,
            MousePointer::SizeNESW => 6,
            MousePointer::SizeNS => 7,
            MousePointer::SizeNWSE => 8,
            MousePointer::SizeWE => 9,
            MousePointer::UpArrow => 10,
            MousePointer::HourGlass => 11,
            MousePointer::NoDrop => 12,
            MousePointer::AppStarting => 13,
            MousePointer::Help => 14,
            MousePointer::SizeAll => 15,
            MousePointer::Custom => 99,
        }
    }
}

/// Specifies the visual appearance of the control.
#[derive(Clone, Copy, Debug, PartialEq, Eq, Hash, Structural)]
pub enum SpecialEffect {
    /// Control appears flat.
    Flat,
    /// Control appears to be raised up from the form.
    Raised,
    /// Control appears to be carved into the form.
    Sunken,
    /// The control border appears to be carved into the form.
    Etched,
    /// The control border appears to be raised up from the form.
    Bump,
}

impl SpecialEffect {
    /// The value with the given number, if one is declared.
    pub open spec fn spec_from_u8(v: u8) -> Option<SpecialEffect> {
        if v == 0 {
            Some(SpecialEffect::Flat)
        } else if v == 1 {
            Some(SpecialEffect::Raised)
        } else if v == 2 {
            Some(SpecialEffect::Sunken)
        } else if v == 3 {
            Some(SpecialEffect::Etched)
        } else if v == 6 {
            Some(SpecialEffect::Bump)
        } else {
            None
        }
    }

    /// The number of the value.
    pub open spec fn spec_to_u8(self) -> u8 {
        match self {
            SpecialEffect::Flat => 0,
            SpecialEffect::Raised => 1,
            SpecialEffect::Sunken => 2,
            SpecialEffect::Etched => 3,
            SpecialEffect::Bump => 6,
        }
    }

    /// The value with the given number; `None` for a number that is not declared.
    #[verifier::when_used_as_spec(spec_from_u8)]
    pub fn from_u8(v: u8) -> (r: Option<SpecialEffect>)
        ensures
            r == SpecialEffect::spec_from_u8(v),
            r.is_some() == variant_known(Variant::SpecialEffect, v as u32),
            r matches Some(x) ==> x.spec_to_u8() == v,
    {
        if v == 0 {
            Some(SpecialEffect::Flat)
        } else if v == 1 {
            Some(SpecialEffect::Raised)
        } else if v == 2 {
            Some(SpecialEffect::Sunken)
        } else if v == 3 {
            Some(SpecialEffect::Etched)
        } else if v == 6 {
            Some(SpecialEffect::Bump)
        } else {
            None
        }
    }

    /// The number of the value.
    #[verifier::when_used_as_spec(spec_to_u8)]
    pub fn to_u8(self) -> (r: u8)
        ensures
            r == self.spec_to_u8(),
            SpecialEffect::spec_from_u8(r) == Some(self),
    {
        match self {
            SpecialEffect::Flat => 0,
            SpecialEffect::Raised => 1,
            SpecialEffect::Sunken => 2,
            SpecialEffect::Etched => 3,
            SpecialEffect::Bump => 6,
        }
    }
}

/// Specifies the alignment of the picture in the Form or Image.
#[derive(Clone, Copy, Debug, PartialEq, Eq, Hash, Structural)]
pub enum PictureAlignment {
    /// The top-left corner.
    TopLeft,
    /// The top-right corner.
    TopRight,
    /// The center.
    Center,
    /// The bottom-left corner.
    BottomLeft,
    /// The bottom-right corner.
    BottomRight,
}

impl PictureAlignment {
    /// The value with the given number, if one is declared.
    pub open spec fn spec_from_u8(v: u8) -> Option<PictureAlignment> {
        if v == 0 {
            Some(PictureAlignment::TopLeft)
        } else if v == 1 {
            Some(PictureAlignment::TopRight)
        } else if v == 2 {
            Some(PictureAlignment::Center)
        } else if v == 3 {
            Some(PictureAlignment::BottomLeft)
        } else if v == 4 {
            Some(PictureAlignment::BottomRight)
        } else {
            None
        }
    }

    /// The number of the value.
    pub open spec fn spec_to_u8(self) -> u8 {
        match self {
            PictureAlignment::TopLeft => 0,
            PictureAlignment::TopRight => 1,
            PictureAlignment::Center => 2,
            PictureAlignment::BottomLeft => 3,
            PictureAlignment::BottomRight => 4,
        }
    }

    /// The value with the given number; `None` for a number that is not declared.
    #[verifier::when_used_as_spec(spec_from_u8)]
    pub fn from_u8(v: u8) -> (r: Option<PictureAlignment>)
        ensures
            r == PictureAlignment::spec_from_u8(v),
            r.is_some() == variant_known(Variant::PictureAlignment, v as u32),
            r matches Some(x) ==> x.spec_to_u8() == v,
    {
        if v == 0 {
            Some(PictureAlignment::TopLeft)
        } else if v == 1 {
            Some(PictureAlignment::TopRight)
        } else if v == 2 {
            Some(PictureAlignment::Center)
        } else if v == 3 {
            Some(PictureAlignment::BottomLeft)
        } else if v == 4 {
            Some(PictureAlignment::BottomRight)
        } else {
            None
        }
    }

    /// The number of the value.
    #[verifier::when_used_as_spec(spec_to_u8)]
    pub fn to_u8(self) -> (r: u8)
        ensures
            r == self.spec_to_u8(),
            PictureAlignment::spec_from_u8(r) == Some(self),
    {
        match self {
            PictureAlignment::TopLeft => 0,
            PictureAlignment::TopRight => 1,
            PictureAlignment::Center => 2,
            PictureAlignment::BottomLeft => 3,
            PictureAlignment::BottomRight => 4,
        }
    }
}

/// Specifies how to display the picture.
#[derive(Clone, Copy, Debug, PartialEq, Eq, Hash, Structural)]
pub enum PictureSizeMode {
    /// Crops any part of the picture that is larger than the control boundaries.
    Clip,
    /// Stretches the picture to fill the control area.
    Stretch,
    /// Enlarges the picture without distorting it.
    Zoom,
}

impl PictureSizeMode {
    /// The value with the given number, if one is declared.
    pub open spec fn spec_from_u8(v: u8) -> Option<PictureSizeMode> {
        if v == 0 {
            Some(PictureSizeMode::Clip)
        } else if v == 1 {
            Some(PictureSizeMode::Stretch)
        } else if v == 3 {
            Some(PictureSizeMode::Zoom)
        } else {
            None
        }
    }

    /// The number of the value.
    pub open spec fn spec_to_u8(self) -> u8 {
        match self {
            PictureSizeMode::Clip => 0,
            PictureSizeMode::Stretch => 1,
            PictureSizeMode::Zoom => 3,
        }
    }

    /// The value with the given number; `None` for a number that is not declared.
    #[verifier::when_used_as_spec(spec_from_u8)]
    pub fn from_u8(v: u8) -> (r: Option<PictureSizeMode>)
        ensures
            r == PictureSizeMode::spec_from_u8(v),
            r.is_some() == variant_known(Variant::PictureSizeMode, v as u32),
            r matches Some(x) ==> x.spec_to_u8() == v,
    {
        if v == 0 {
            Some(PictureSizeMode::Clip)
        } else if v == 1 {
            Some(PictureSizeMode::Stretch)
        } else if v == 3 {
            Some(PictureSizeMode::Zoom)
        } else {
            None
        }
    }

    /// The number of the value.
    #[verifier::when_used_as_spec(spec_to_u8)]
    pub fn to_u8(self) -> (r: u8)
        ensures
            r == self.spec_to_u8(),
            PictureSizeMode::spec_from_u8(r) == Some(self),
    {
        match self {
            PictureSizeMode::Clip => 0,
            PictureSizeMode::Stretch => 1,
            PictureSizeMode::Zoom => 3,
        }
    }
}

/// A distance in HIMETRIC units (0.01 mm).
pub type HiMetric = u32;

/// A pair of unsigned integers that specify the size of a control.
#[derive(Clone, Copy, Debug, PartialEq, Eq, Hash, Structural)]
pub struct Size {
    /// The width, in HIMETRIC units, of the control.
    pub width: HiMetric,
    /// The height, in HIMETRIC units, of the control.
    pub height: HiMetric,
}

impl Size {
    #[verifier::allow_in_spec]
    pub fn new(width: HiMetric, height: HiMetric) -> (s: Size)
        returns
            (Size { width, height }),
    {
        Size { width, height }
    }
}

/// A signed distance in HIMETRIC units.
pub type SignedHiMetric = i32;

/// A pair of signed integers that specify a position relative to a reference
/// point. In the file `left` comes first, then `top`.
#[derive(Clone, Copy, Debug, PartialEq, Eq, Hash, Structural)]
pub struct Position {
    /// The distance, in HIMETRIC units, to the right of the reference point.
    pub left: SignedHiMetric,
    /// The distance, in HIMETRIC units, below the reference point.
    pub top: SignedHiMetric,
}

impl Position {
    #[verifier::allow_in_spec]
    pub fn new(left: SignedHiMetric, top: SignedHiMetric) -> (p: Position)
        returns
            (Position { left, top }),
    {
        Position { left, top }
    }
}

impl Default for Position {
    fn default() -> (p: Position)
        ensures
            p == (Position { left: 0, top: 0 }),
    {
        Position { left: 0, top: 0 }
    }
}

/// The controls that a site can name by an index into the global table of cached classes.
#[derive(Clone, Copy, Debug, PartialEq, Eq, Hash, Structural)]
pub enum FormEmbeddedActiveXControlCached {
    /// A form (index 7).
    Form,
    /// An image (index 12).
    Image,
    /// A frame (index 14).
    Frame,
    /// A control of the morph data family (index 15).
    MorphData,
    /// A spin button (index 16).
    SpinButton,
    /// A command button (index 17).
    CommandButton,
    /// A tab strip (index 18).
    TabStrip,
    /// A label (index 21).
    Label,
    /// A text box (index 23).
    TextBox,
    /// A list box (index 24).
    ListBox,
    /// A combo box (index 25).
    ComboBox,
    /// A check box (index 26).
    CheckBox,
    /// An option button (index 27).
    OptionButton,
    /// A toggle button (index 28).
    ToggleButton,
    /// A scroll bar (index 47).
    ScrollBar,
    /// A multi-page control (index 57).
    MultiPage,
}

impl FormEmbeddedActiveXControlCached {
    /// The value with the given number, if one is declared.
    pub open spec fn spec_from_u16(v: u16) -> Option<FormEmbeddedActiveXControlCached> {
        if v == 7 {
            Some(FormEmbeddedActiveXControlCached::Form)
        } else if v == 12 {
            Some(FormEmbeddedActiveXControlCached::Image)
        } else if v == 14 {
            Some(FormEmbeddedActiveXControlCached::Frame)
        } else if v == 15 {
            Some(FormEmbeddedActiveXControlCached::MorphData)
        } else if v == 16 {
            Some(FormEmbeddedActiveXControlCached::SpinButton)
        } else if v == 17 {
            Some(FormEmbeddedActiveXControlCached::CommandButton)
        } else if v == 18 {
            Some(FormEmbeddedActiveXControlCached::TabStrip)
        } else if v == 21 {
            Some(FormEmbeddedActiveXControlCached::Label)
        } else if v == 23 {
            Some(FormEmbeddedActiveXControlCached::TextBox)
        } else if v == 24 {
            Some(FormEmbeddedActiveXControlCached::ListBox)
        } else if v == 25 {
            Some(FormEmbeddedActiveXControlCached::ComboBox)
        } else if v == 26 {
            Some(FormEmbeddedActiveXControlCached::CheckBox)
        } else if v == 27 {
            Some(FormEmbeddedActiveXControlCached::OptionButton)
        } else if v == 28 {
            Some(FormEmbeddedActiveXControlCached::ToggleButton)
        } else if v == 47 {
            Some(FormEmbeddedActiveXControlCached::ScrollBar)
        } else if v == 57 {
            Some(FormEmbeddedActiveXControlCached::MultiPage)
        } else {
            None
        }
    }

    /// The number of the value.
    pub open spec fn spec_to_u16(self) -> u16 {
        match self {
            FormEmbeddedActiveXControlCached::Form => 7,
            FormEmbeddedActiveXControlCached::Image => 12,
            FormEmbeddedActiveXControlCached::Frame => 14,
            FormEmbeddedActiveXControlCached::MorphData => 15,
            FormEmbeddedActiveXControlCached::SpinButton => 16,
            FormEmbeddedActiveXControlCached::CommandButton => 17,
            FormEmbeddedActiveXControlCached::TabStrip => 18,
            FormEmbeddedActiveXControlCached::Label => 21,
            FormEmbeddedActiveXControlCached::TextBox => 23,
            FormEmbeddedActiveXControlCached::ListBox => 24,
            FormEmbeddedActiveXControlCached::ComboBox => 25,
            FormEmbeddedActiveXControlCached::CheckBox => 26,
            FormEmbeddedActiveXControlCached::OptionButton => 27,
            FormEmbeddedActiveXControlCached::ToggleButton => 28,
            FormEmbeddedActiveXControlCached::ScrollBar => 47,
            FormEmbeddedActiveXControlCached::MultiPage => 57,
        }
    }

    /// The value with the given number; `None` for a number that is not declared.
    #[verifier::when_used_as_spec(spec_from_u16)]
    pub fn from_u16(v: u16) -> (r: Option<FormEmbeddedActiveXControlCached>)
        ensures
            r == FormEmbeddedActiveXControlCached::spec_from_u16(v),
            r matches Some(x) ==> x.spec_to_u16() == v,
    {
        if v == 7 {
            Some(FormEmbeddedActiveXControlCached::Form)
        } else if v == 12 {
            Some(FormEmbeddedActiveXControlCached::Image)
        } else if v == 14 {
            Some(FormEmbeddedActiveXControlCached::Frame)
        } else if v == 15 {
            Some(FormEmbeddedActiveXControlCached::MorphData)
        } else if v == 16 {
            Some(FormEmbeddedActiveXControlCached::SpinButton)
        } else if v == 17 {
            Some(FormEmbeddedActiveXControlCached::CommandButton)
        } else if v == 18 {
            Some(FormEmbeddedActiveXControlCached::TabStrip)
        } else if v == 21 {
            Some(FormEmbeddedActiveXControlCached::Label)
        } else if v == 23 {
            Some(FormEmbeddedActiveXControlCached::TextBox)
        } else if v == 24 {
            Some(FormEmbeddedActiveXControlCached::ListBox)
        } else if v == 25 {
            Some(FormEmbeddedActiveXControlCached::ComboBox)
        } else if v == 26 {
            Some(FormEmbeddedActiveXControlCached::CheckBox)
        } else if v == 27 {
            Some(FormEmbeddedActiveXControlCached::OptionButton)
        } else if v == 28 {
            Some(FormEmbeddedActiveXControlCached::ToggleButton)
        } else if v == 47 {
            Some(FormEmbeddedActiveXControlCached::ScrollBar)
        } else if v == 57 {
            Some(FormEmbeddedActiveXControlCached::MultiPage)
        } else {
            None
        }
    }

    /// The number of the value.
    #[verifier::when_used_as_spec(spec_to_u16)]
    pub fn to_u16(self) -> (r: u16)
        ensures
            r == self.spec_to_u16(),
            FormEmbeddedActiveXControlCached::spec_from_u16(r) == Some(self),
    {
        match self {
            FormEmbeddedActiveXControlCached::Form => 7,
            FormEmbeddedActiveXControlCached::Image => 12,
            FormEmbeddedActiveXControlCached::Frame => 14,
            FormEmbeddedActiveXControlCached::MorphData => 15,
            FormEmbeddedActiveXControlCached::SpinButton => 16,
            FormEmbeddedActiveXControlCached::CommandButton => 17,
            FormEmbeddedActiveXControlCached::TabStrip => 18,
            FormEmbeddedActiveXControlCached::Label => 21,
            FormEmbeddedActiveXControlCached::TextBox => 23,
            FormEmbeddedActiveXControlCached::ListBox => 24,
            FormEmbeddedActiveXControlCached::ComboBox => 25,
            FormEmbeddedActiveXControlCached::CheckBox => 26,
            FormEmbeddedActiveXControlCached::OptionButton => 27,
            FormEmbeddedActiveXControlCached::ToggleButton => 28,
            FormEmbeddedActiveXControlCached::ScrollBar => 47,
            FormEmbeddedActiveXControlCached::MultiPage => 57,
        }
    }
}

/// The kind of control that a site embeds.
#[derive(Clone, Copy, Debug, PartialEq, Eq)]
pub enum FormEmbeddedActiveXControl<'a> {
    /// One of the cached controls.
    ControlCached(FormEmbeddedActiveXControlCached),
    /// A control that the class table of the form describes.
    ControlNonCached(&'a SiteClassInfo),
}

} // verus!
