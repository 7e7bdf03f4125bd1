//! OLE colors.
pub mod parser;

pub use parser::parse_ole_color;

use vstd::prelude::*;
use vstd::std_specs::convert::{FromSpecImpl, TryFromSpecImpl};

verus! {

/// A color by its three channels.
#[derive(Clone, Copy, Debug, PartialEq, Eq, Hash, Structural)]
pub struct RgbColor {
    pub blue: u8,
    pub green: u8,
    pub red: u8,
}

impl RgbColor {
    #[verifier::allow_in_spec]
    pub fn from_rgb(red: u8, green: u8, blue: u8) -> (c: RgbColor)
        returns
            (RgbColor { blue, green, red }),
    {
        RgbColor { red, green, blue }
    }

    #[verifier::allow_in_spec]
    pub fn from_bgr(blue: u8, green: u8, red: u8) -> (c: RgbColor)
        returns
            (RgbColor { blue, green, red }),
    {
        RgbColor { blue, green, red }
    }
}

/// An index into the palette of the application.
pub type PaletteIndex = u16;

/// A 16-bit integer that may name a [`SystemColor`].
#[derive(Clone, Copy, Debug, PartialEq, Eq, PartialOrd, Ord, Hash, Structural)]
pub struct SystemPaletteIndex(pub u16);

/// The system colors of Windows.
#[derive(Clone, Copy, Debug, PartialEq, Eq, Hash, Structural)]
pub enum SystemColor {
    /// Scroll bar color.
    ScrollBars,
    /// Desktop color.
    Desktop,
    /// Color of the title bar for the active window.
    ActiveTitleBar,
    /// Color of the title bar for the inactive window.
    InactiveTitleBar,
    /// Menu background color.
    MenuBar,
    /// Window background color.
    WindowBackground,
    /// Window frame color.
    WindowFrame,
    /// Color of text on menus.
    MenuText,
    /// Color of text in windows.
    WindowText,
    /// Color of text in caption, size box, and scroll arrow.
    TitleBarText,
    /// Border color of active window.
    ActiveBorder,
    /// Border color of inactive window.
    InactiveBorder,
    /// Background color of multiple-document interface applications.
    ApplicationWorkspace,
    /// Background color of items selected in a control.
    Highlight,
    /// Text color of items selected in a control.
    HighlightText,
    /// Color of shading on the face of command buttons.
    ButtonFace,
    /// Color of shading on the edge of command buttons.
    ButtonShadow,
    /// Grayed (disabled) text.
    GrayText,
    /// Text color on push buttons.
    ButtonText,
    /// Color of text in an inactive caption.
    InactiveCaptionText,
    /// Highlight color for 3-D display elements.
    _3DHighlight,
    /// Darkest shadow color for 3-D display elements.
    _3DDKShadow,
    /// Second lightest 3-D color.
    _3DLight,
    /// Color of text in ToolTips.
    InfoText,
    /// Background color of ToolTips.
    InfoBackground,
}

impl SystemColor {
    /// The value with the given number, if one is declared.
    pub open spec fn spec_from_u16(v: u16) -> Option<SystemColor> {
        if v == 0 {
            Some(SystemColor::ScrollBars)
        } else if v == 1 {
            Some(SystemColor::Desktop)
        } else if v == 2 {
            Some(SystemColor::ActiveTitleBar)
        } else if v == 3 {
            Some(SystemColor::InactiveTitleBar)
        } else if v == 4 {
            Some(SystemColor::MenuBar)
        } else if v == 5 {
            Some(SystemColor::WindowBackground)
        } else if v == 6 {
            Some(SystemColor::WindowFrame)
        } else if v == 7 {
            Some(SystemColor::MenuText)
        } else if v == 8 {
            Some(SystemColor::WindowText)
        } else if v == 9 {
            Some(SystemColor::TitleBarText)
        } else if v == 10 {
            Some(SystemColor::ActiveBorder)
        } else if v == 11 {
            Some(SystemColor::InactiveBorder)
        } else if v == 12 {
            Some(SystemColor::ApplicationWorkspace)
        } else if v == 13 {
            Some(SystemColor::Highlight)
        } else if v == 14 {
            Some(SystemColor::HighlightText)
        } else if v == 15 {
            Some(SystemColor::ButtonFace)
        } else if v == 16 {
            Some(SystemColor::ButtonShadow)
        } else if v == 17 {
            Some(SystemColor::GrayText)
        } else if v == 18 {
            Some(SystemColor::ButtonText)
        } else if v == 19 {
            Some(SystemColor::InactiveCaptionText)
        } else if v == 20 {
            Some(SystemColor::_3DHighlight)
        } else if v == 21 {
            Some(SystemColor::_3DDKShadow)
        } else if v == 22 {
            Some(SystemColor::_3DLight)
        } else if v == 23 {
            Some(SystemColor::InfoText)
        } else if v == 24 {
            Some(SystemColor::InfoBackground)
        } else {
            None
        }
    }

    /// The number of the value.
    pub open spec fn spec_to_u16(self) -> u16 {
        match self {
            SystemColor::ScrollBars => 0,
            SystemColor::Desktop => 1,
            SystemColor::ActiveTitleBar => 2,
            SystemColor::InactiveTitleBar => 3,
            SystemColor::MenuBar => 4,
            SystemColor::WindowBackground => 5,
            SystemColor::WindowFrame => 6,
            SystemColor::MenuText => 7,
            SystemColor::WindowText => 8,
            SystemColor::TitleBarText => 9,
            SystemColor::ActiveBorder => 10,
            SystemColor::InactiveBorder => 11,
            SystemColor::ApplicationWorkspace => 12,
            SystemColor::Highlight => 13,
            SystemColor::HighlightText => 14,
            SystemColor::ButtonFace => 15,
            SystemColor::ButtonShadow => 16,
            SystemColor::GrayText => 17,
            SystemColor::ButtonText => 18,
            SystemColor::InactiveCaptionText => 19,
            SystemColor::_3DHighlight => 20,
            SystemColor::_3DDKShadow => 21,
            SystemColor::_3DLight => 22,
            SystemColor::InfoText => 23,
            SystemColor::InfoBackground => 24,
        }
    }

    /// The value with the given number; `None` for a number that is not declared.
    #[verifier::when_used_as_spec(spec_from_u16)]
    pub fn from_u16(v: u16) -> (r: Option<SystemColor>)
        ensures
            r == SystemColor::spec_from_u16(v),
            r matches Some(x) ==> x.spec_to_u16() == v,
    {
        if v == 0 {
            Some(SystemColor::ScrollBars)
        } else if v == 1 {
            Some(SystemColor::Desktop)
        } else if v == 2 {
            Some(SystemColor::ActiveTitleBar)
        } else if v == 3 {
            Some(SystemColor::InactiveTitleBar)
        } else if v == 4 {
            Some(SystemColor::MenuBar)
        } else if v == 5 {
            Some(SystemColor::WindowBackground)
        } else if v == 6 {
            Some(SystemColor::WindowFrame)
        } else if v == 7 {
            Some(SystemColor::MenuText)
        } else if v == 8 {
            Some(SystemColor::WindowText)
        } else if v == 9 {
            Some(SystemColor::TitleBarText)
        } else if v == 10 {
            Some(SystemColor::ActiveBorder)
        } else if v == 11 {
            Some(SystemColor::InactiveBorder)
        } else if v == 12 {
            Some(SystemColor::ApplicationWorkspace)
        } else if v == 13 {
            Some(SystemColor::Highlight)
        } else if v == 14 {
            Some(SystemColor::HighlightText)
        } else if v == 15 {
            Some(SystemColor::ButtonFace)
        } else if v == 16 {
            Some(SystemColor::ButtonShadow)
        } else if v == 17 {
            Some(SystemColor::GrayText)
        } else if v == 18 {
            Some(SystemColor::ButtonText)
        } else if v == 19 {
            Some(SystemColor::InactiveCaptionText)
        } else if v == 20 {
            Some(SystemColor::_3DHighlight)
        } else if v == 21 {
            Some(SystemColor::_3DDKShadow)
        } else if v == 22 {
            Some(SystemColor::_3DLight)
        } else if v == 23 {
            Some(SystemColor::InfoText)
        } else if v == 24 {
            Some(SystemColor::InfoBackground)
        } else {
            None
        }
    }

    /// The number of the value.
    #[verifier::when_used_as_spec(spec_to_u16)]
    pub fn to_u16(self) -> (r: u16)
        ensures
            r == self.spec_to_u16(),
            SystemColor::spec_from_u16(r) == Some(self),
    {
        match self {
            SystemColor::ScrollBars => 0,
            SystemColor::Desktop => 1,
            SystemColor::ActiveTitleBar => 2,
            SystemColor::InactiveTitleBar => 3,
            SystemColor::MenuBar => 4,
            SystemColor::WindowBackground => 5,
            SystemColor::WindowFrame => 6,
            SystemColor::MenuText => 7,
            SystemColor::WindowText => 8,
            SystemColor::TitleBarText => 9,
            SystemColor::ActiveBorder => 10,
            SystemColor::InactiveBorder => 11,
            SystemColor::ApplicationWorkspace => 12,
            SystemColor::Highlight => 13,
            SystemColor::HighlightText => 14,
            SystemColor::ButtonFace => 15,
            SystemColor::ButtonShadow => 16,
            SystemColor::GrayText => 17,
            SystemColor::ButtonText => 18,
            SystemColor::InactiveCaptionText => 19,
            SystemColor::_3DHighlight => 20,
            SystemColor::_3DDKShadow => 21,
            SystemColor::_3DLight => 22,
            SystemColor::InfoText => 23,
            SystemColor::InfoBackground => 24,
        }
    }
}

impl SystemColor {
    /// The color that a default desktop theme gives this system color.
    pub open spec fn spec_rgb(self) -> RgbColor {
        match self {
            SystemColor::ScrollBars => RgbColor { red: 200, green: 200, blue: 200 },
            SystemColor::Desktop => RgbColor { red: 0, green: 0, blue: 0 },
            SystemColor::ActiveTitleBar => RgbColor { red: 153, green: 180, blue: 209 },
            SystemColor::InactiveTitleBar => RgbColor { red: 191, green: 205, blue: 219 },
            SystemColor::MenuBar => RgbColor { red: 255, green: 255, blue: 255 },
            SystemColor::WindowBackground => RgbColor { red: 255, green: 255, blue: 255 },
            SystemColor::WindowFrame => RgbColor { red: 100, green: 100, blue: 100 },
            SystemColor::MenuText => RgbColor { red: 0, green: 0, blue: 0 },
            SystemColor::WindowText => RgbColor { red: 0, green: 0, blue: 0 },
            SystemColor::TitleBarText => RgbColor { red: 0, green: 0, blue: 0 },
            SystemColor::ActiveBorder => RgbColor { red: 180, green: 180, blue: 180 },
            SystemColor::InactiveBorder => RgbColor { red: 244, green: 247, blue: 252 },
            SystemColor::ApplicationWorkspace => RgbColor { red: 171, green: 171, blue: 171 },
            SystemColor::Highlight => RgbColor { red: 0, green: 120, blue: 215 },
            SystemColor::HighlightText => RgbColor { red: 255, green: 255, blue: 255 },
            SystemColor::ButtonFace => RgbColor { red: 255, green: 255, blue: 255 },
            SystemColor::ButtonShadow => RgbColor { red: 160, green: 160, blue: 160 },
            SystemColor::GrayText => RgbColor { red: 109, green: 109, blue: 109 },
            SystemColor::ButtonText => RgbColor { red: 0, green: 0, blue: 0 },
            SystemColor::InactiveCaptionText => RgbColor { red: 0, green: 0, blue: 0 },
            SystemColor::_3DHighlight => RgbColor { red: 255, green: 255, blue: 255 },
            SystemColor::_3DDKShadow => RgbColor { red: 105, green: 105, blue: 105 },
            SystemColor::_3DLight => RgbColor { red: 227, green: 227, blue: 227 },
            SystemColor::InfoText => RgbColor { red: 0, green: 0, blue: 0 },
            SystemColor::InfoBackground => RgbColor { red: 255, green: 255, blue: 225 },
        }
    }

    /// The index of this color in the system palette.
    #[verifier::allow_in_spec]
    pub fn as_index(&self) -> (i: SystemPaletteIndex)
        returns
            (SystemPaletteIndex(self.spec_to_u16())),
    {
        SystemPaletteIndex(self.to_u16())
    }

    /// This color as an OLE color.
    #[verifier::allow_in_spec]
    pub fn as_ole_color(&self) -> (c: OleColor)
        returns
            (OleColor::SystemPalette(SystemPaletteIndex(self.spec_to_u16()))),
    {
        self.as_index().as_ole_color()
    }
}

impl From<SystemColor> for RgbColor {
    fn from(value: SystemColor) -> (c: RgbColor) {
        match value {
            SystemColor::ScrollBars => RgbColor::from_rgb(200, 200, 200),
            SystemColor::Desktop => RgbColor::from_rgb(0, 0, 0),
            SystemColor::ActiveTitleBar => RgbColor::from_rgb(153, 180, 209),
            SystemColor::InactiveTitleBar => RgbColor::from_rgb(191, 205, 219),
            SystemColor::MenuBar => RgbColor::from_rgb(255, 255, 255),
            SystemColor::WindowBackground => RgbColor::from_rgb(255, 255, 255),
            SystemColor::WindowFrame => RgbColor::from_rgb(100, 100, 100),
            SystemColor::MenuText => RgbColor::from_rgb(0, 0, 0),
            SystemColor::WindowText => RgbColor::from_rgb(0, 0, 0),
            SystemColor::TitleBarText => RgbColor::from_rgb(0, 0, 0),
            SystemColor::ActiveBorder => RgbColor::from_rgb(180, 180, 180),
            SystemColor::InactiveBorder => RgbColor::from_rgb(244, 247, 252),
            SystemColor::ApplicationWorkspace => RgbColor::from_rgb(171, 171, 171),
            SystemColor::Highlight => RgbColor::from_rgb(0, 120, 215),
            SystemColor::HighlightText => RgbColor::from_rgb(255, 255, 255),
            SystemColor::ButtonFace => RgbColor::from_rgb(255, 255, 255),
            SystemColor::ButtonShadow => RgbColor::from_rgb(160, 160, 160),
            SystemColor::GrayText => RgbColor::from_rgb(109, 109, 109),
            SystemColor::ButtonText => RgbColor::from_rgb(0, 0, 0),
            SystemColor::InactiveCaptionText => RgbColor::from_rgb(0, 0, 0),
            SystemColor::_3DHighlight => RgbColor::from_rgb(255, 255, 255),
            SystemColor::_3DDKShadow => RgbColor::from_rgb(105, 105, 105),
            SystemColor::_3DLight => RgbColor::from_rgb(227, 227, 227),
            SystemColor::InfoText => RgbColor::from_rgb(0, 0, 0),
            SystemColor::InfoBackground => RgbColor::from_rgb(255, 255, 225),
        }
    }
}

impl FromSpecImpl<SystemColor> for RgbColor {
    open spec fn obeys_from_spec() -> bool {
        true
    }

    open spec fn from_spec(value: SystemColor) -> RgbColor {
        value.spec_rgb()
    }
}

impl SystemPaletteIndex {
    /// This index as an OLE color.
    #[verifier::allow_in_spec]
    pub fn as_ole_color(&self) -> (c: OleColor)
        returns
            (OleColor::SystemPalette(*self)),
    {
        OleColor::SystemPalette(*self)
    }

    /// The system color that this index names, if it names one.
    pub fn as_system_color(&self) -> (c: Option<SystemColor>)
        ensures
            c == SystemColor::spec_from_u16(self.0),
    {
        SystemColor::from_u16(self.0)
    }
}

impl From<SystemColor> for SystemPaletteIndex {
    fn from(value: SystemColor) -> (i: SystemPaletteIndex) {
        value.as_index()
    }
}

impl FromSpecImpl<SystemColor> for SystemPaletteIndex {
    open spec fn obeys_from_spec() -> bool {
        true
    }

    open spec fn from_spec(value: SystemColor) -> SystemPaletteIndex {
        SystemPaletteIndex(value.spec_to_u16())
    }
}

/// A color as forms store it: a 32-bit word whose high byte is a tag and
/// whose low three bytes carry the data.
#[derive(Clone, Copy, Debug, PartialEq, Eq, Hash, Structural)]
pub enum OleColor {
    /// Tag `0x00`: a color by its channels.
    Default(RgbColor),
    /// Tag `0x01`: an entry of the palette.
    PaletteEntry(PaletteIndex),
    /// Tag `0x02`: a color by its channels.
    RgbColor(RgbColor),
    /// Tag `0x80`: an entry of the system palette.
    SystemPalette(SystemPaletteIndex),
}

impl OleColor {
    pub const TAG_DEFAULT: u8 = 0x00;
    pub const TAG_PALETTE_ENTRY: u8 = 0x01;
    pub const TAG_RGB_COLOR: u8 = 0x02;
    pub const TAG_SYSTEM_PALETTE: u8 = 0x80;

    /// The color that the word `value` encodes, if its tag is declared. The
    /// channels come in the order blue, green, red from the low byte up; an
    /// index is the low 16 bits.
    pub open spec fn spec_from_u32(value: u32) -> Option<OleColor> {
        let tag = value / 0x100_0000;
        let a = (value % 0x100) as u8;
        let b = (value / 0x100 % 0x100) as u8;
        let c = (value / 0x1_0000 % 0x100) as u8;
        let index = (value % 0x1_0000) as u16;
        if tag == OleColor::TAG_DEFAULT {
            Some(OleColor::Default(RgbColor { blue: a, green: b, red: c }))
        } else if tag == OleColor::TAG_PALETTE_ENTRY {
            Some(OleColor::PaletteEntry(index))
        } else if tag == OleColor::TAG_RGB_COLOR {
            Some(OleColor::RgbColor(RgbColor { blue: a, green: b, red: c }))
        } else if tag == OleColor::TAG_SYSTEM_PALETTE {
            Some(OleColor::SystemPalette(SystemPaletteIndex(index)))
        } else {
            None
        }
    }

    /// Decodes a color word; `None` exactly when the tag is not declared.
    #[verifier::when_used_as_spec(spec_from_u32)]
    pub fn from_u32(value: u32) -> (r: Option<OleColor>)
        ensures
            r == OleColor::spec_from_u32(value),
    {
        let tag: u32 = value / 0x100_0000;
        let a: u8 = (value % 0x100) as u8;
        let b: u8 = (value / 0x100 % 0x100) as u8;
        let c: u8 = (value / 0x1_0000 % 0x100) as u8;
        let index: u16 = (value % 0x1_0000) as u16;
        if tag == 0x00 {
            Some(OleColor::Default(RgbColor::from_bgr(a, b, c)))
        } else if tag == 0x01 {
            Some(OleColor::PaletteEntry(index))
        } else if tag == 0x02 {
            Some(OleColor::RgbColor(RgbColor::from_bgr(a, b, c)))
        } else if tag == 0x80 {
            Some(OleColor::SystemPalette(SystemPaletteIndex(index)))
        } else {
            None
        }
    }

    /// The system color `_3DDKShadow`.
    #[allow(non_snake_case)]
    #[verifier::allow_in_spec]
    pub fn _3DDKSHADOW() -> (c: OleColor)
        returns
            (OleColor::SystemPalette(SystemPaletteIndex(21))),
    {
        SystemColor::_3DDKShadow.as_ole_color()
    }

    /// The system color `ButtonFace`.
    #[allow(non_snake_case)]
    #[verifier::allow_in_spec]
    pub fn _3DFACE() -> (c: OleColor)
        returns
            (OleColor::SystemPalette(SystemPaletteIndex(15))),
    {
        SystemColor::ButtonFace.as_ole_color()
    }

    /// The system color `_3DHighlight`.
    #[allow(non_snake_case)]
    #[verifier::allow_in_spec]
    pub fn _3DHIGHLIGHT() -> (c: OleColor)
        returns
            (OleColor::SystemPalette(SystemPaletteIndex(20))),
    {
        SystemColor::_3DHighlight.as_ole_color()
    }

    /// The system color `ButtonFace`.
    #[allow(non_snake_case)]
    #[verifier::allow_in_spec]
    pub fn BTNFACE() -> (c: OleColor)
        returns
            (OleColor::SystemPalette(SystemPaletteIndex(15))),
    {
        SystemColor::ButtonFace.as_ole_color()
    }

    /// The system color `ButtonText`.
    #[allow(non_snake_case)]
    #[verifier::allow_in_spec]
    pub fn BTNTEXT() -> (c: OleColor)
        returns
            (OleColor::SystemPalette(SystemPaletteIndex(18))),
    {
        SystemColor::ButtonText.as_ole_color()
    }

    /// The system color `WindowText`.
    #[allow(non_snake_case)]
    #[verifier::allow_in_spec]
    pub fn WINDOWTEXT() -> (c: OleColor)
        returns
            (OleColor::SystemPalette(SystemPaletteIndex(8))),
    {
        SystemColor::WindowText.as_ole_color()
    }

    /// The system color `WindowBackground`.
    #[allow(non_snake_case)]
    #[verifier::allow_in_spec]
    pub fn WINDOW() -> (c: OleColor)
        returns
            (OleColor::SystemPalette(SystemPaletteIndex(5))),
    {
        SystemColor::WindowBackground.as_ole_color()
    }

    /// The system color `WindowFrame`.
    #[allow(non_snake_case)]
    #[verifier::allow_in_spec]
    pub fn WINDOWFRAME() -> (c: OleColor)
        returns
            (OleColor::SystemPalette(SystemPaletteIndex(6))),
    {
        SystemColor::WindowFrame.as_ole_color()
    }
}

impl TryFrom<u32> for OleColor {
    type Error = u32;

    fn try_from(value: u32) -> (r: Result<OleColor, u32>) {
        match OleColor::from_u32(value) {
            Some(c) => Ok(c),
            None => Err(value),
        }
    }
}

impl TryFromSpecImpl<u32> for OleColor {
    open spec fn obeys_try_from_spec() -> bool {
        true
    }

    open spec fn try_from_spec(value: u32) -> Result<OleColor, u32> {
        match OleColor::spec_from_u32(value) {
            Some(c) => Ok(c),
            None => Err(value),
        }
    }
}

} // verus!
