//! Fonts.
pub mod parser;

pub use parser::{parse_guid_and_font, parse_std_font};

use vstd::prelude::*;
use crate::common::Guid;

verus! {

/// Style characteristics of a font.
#[derive(Clone, Copy, Debug, PartialEq, Eq, Hash, Structural)]
pub struct FontFlags {
    pub bits: u8,
}

impl FontFlags {
    /// Specifies whether the font style is bold.
    pub const BOLD: u8 = 0x1;
    /// Specifies whether the font style is italic.
    pub const ITALIC: u8 = 0x2;
    /// Specifies whether the font style is underlined.
    pub const UNDERLINE: u8 = 0x4;
    /// Specifies whether the font style is strikethrough.
    pub const STRIKETHROUGH: u8 = 0x8;
    /// Every declared bit.
    pub const ALL: u8 = 0xF;

    /// The flag set with exactly the bits of `bits`, unless one of them is not declared.
    pub fn from_bits(bits: u8) -> (r: Option<FontFlags>)
        ensures
            r == (if bits & !FontFlags::ALL == 0 {
                Some(FontFlags { bits })
            } else {
                None
            }),
    {
        if bits & !FontFlags::ALL == 0 {
            Some(FontFlags { bits })
        } else {
            None
        }
    }

    /// The empty flag set.
    #[verifier::allow_in_spec]
    pub fn empty() -> (r: FontFlags)
        returns
            (FontFlags { bits: 0 }),
    {
        FontFlags { bits: 0 }
    }

    /// The raw bits.
    #[verifier::allow_in_spec]
    pub fn bits(&self) -> (r: u8)
        returns
            self.bits,
    {
        self.bits
    }

    /// Whether every bit of `flags` is set.
    #[verifier::allow_in_spec]
    pub fn contains(&self, flags: u8) -> (r: bool)
        returns
            (self.bits & flags == flags),
    {
        self.bits & flags == flags
    }
}

/// A font in the standard font format.
#[derive(Clone, Debug, PartialEq, Eq)]
pub struct StdFont {
    /// The character set of the font.
    pub charset: i16,
    /// The style characteristics of the font.
    pub flags: FontFlags,
    /// The weight of the font, from 0 through 1000. Zero leaves the weight to
    /// the application; otherwise 1 is the lightest and 1000 the darkest.
    pub weight: i16,
    /// The height of the font in ten-thousandths of a point: greater than zero
    /// and at most 655350000.
    pub height: u32,
    /// The name of the font, an ASCII string of fewer than 32 characters.
    pub font_face: String,
}

/// The mathematical value of a [`StdFont`].
pub struct StdFontModel {
    pub charset: i16,
    pub flags: FontFlags,
    pub weight: i16,
    pub height: u32,
    pub font_face: Seq<char>,
}

impl StdFontModel {
    /// What holds of every standard font of the format: the weight is from 0
    /// through 1000, the height is greater than zero and at most 655350000,
    /// and the name has fewer than 32 characters, all of them ASCII.
    pub open spec fn wf(self) -> bool {
        &&& 0 <= self.weight <= 1000
        &&& 0 < self.height <= 655_350_000
        &&& self.font_face.len() < 32
        &&& forall|i: int| 0 <= i < self.font_face.len() ==> (self.font_face[i] as u32) < 0x80
    }
}

impl View for StdFont {
    type V = StdFontModel;

    open spec fn view(&self) -> StdFontModel {
        StdFontModel {
            charset: self.charset,
            flags: self.flags,
            weight: self.weight,
            height: self.height,
            font_face: self.font_face@,
        }
    }
}

/// The text properties of a control. Their content is not decoded.
#[derive(Clone, Copy, Debug, PartialEq, Eq, Hash, Structural)]
pub struct TextProps {}

/// The payload of a font of class "DDSform 2.1 FontNew": two words.
#[derive(Clone, Copy, Debug, PartialEq, Eq, Hash, Structural)]
pub struct DdsForm21FontNew {
    pub d1: u32,
    pub d2: u32,
}

/// The font of a form, in the format that its class chose.
#[derive(Clone, Debug, PartialEq, Eq)]
pub enum FormFont {
    Empty,
    DdsForm21FontNew(DdsForm21FontNew),
    StdFont(StdFont),
    TextProps(TextProps),
}

/// The mathematical value of a [`FormFont`].
pub enum FormFontModel {
    Empty,
    DdsForm21FontNew(DdsForm21FontNew),
    StdFont(StdFontModel),
    TextProps(TextProps),
}

impl View for FormFont {
    type V = FormFontModel;

    open spec fn view(&self) -> FormFontModel {
        match self {
            FormFont::Empty => FormFontModel::Empty,
            FormFont::DdsForm21FontNew(f) => FormFontModel::DdsForm21FontNew(*f),
            FormFont::StdFont(f) => FormFontModel::StdFont(f@),
            FormFont::TextProps(f) => FormFontModel::TextProps(*f),
        }
    }
}

/// A font together with the class that chose its format.
#[derive(Clone, Debug, PartialEq, Eq)]
pub struct GuidAndFont {
    pub guid: Guid,
    pub font: FormFont,
}

/// The mathematical value of a [`GuidAndFont`].
pub struct GuidAndFontModel {
    pub guid: Guid,
    pub font: FormFontModel,
}

impl View for GuidAndFont {
    type V = GuidAndFontModel;

    open spec fn view(&self) -> GuidAndFontModel {
        GuidAndFontModel { guid: self.guid, font: self.font@ }
    }
}

impl GuidAndFont {
    /// No font: the nil GUID and the empty variant.
    pub open spec fn spec_empty() -> GuidAndFontModel {
        GuidAndFontModel { guid: Guid::nil(), font: FormFontModel::Empty }
    }

    /// No font.
    #[allow(non_snake_case)]
    pub fn EMPTY() -> (f: GuidAndFont)
        ensures
            f@ == GuidAndFont::spec_empty(),
    {
        GuidAndFont { guid: Guid::nil(), font: FormFont::Empty }
    }
}

} // verus!
