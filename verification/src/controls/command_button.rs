//! The command button control.
//!
//! The decoder reads the colors of the button. The header gives the number
//! of bytes that follow the property mask, and the button is decoded from
//! exactly those bytes.
use vstd::prelude::*;
use vstd::slice::slice_subrange;
use crate::common::parser::{
    decoded, le_value, read_header, rest_of, spec_header, AlignedParser,
};
use crate::common::props::{
    check_ok, fixed_block, lemma_fixed_block_ok, props_wf, read_fixed_block, read_mask, spec_mask,
    Check, Prop,
};
use crate::error::{DecodeError, ErrorKind, Field, RecordKind};
use crate::properties::color::OleColor;

verus! {

/// The colors of a command button.
#[derive(Clone, Copy, Debug, PartialEq, Eq, Hash, Structural)]
pub struct CommandButtonControl {
    /// Default: the system color of button text.
    pub fore_color: OleColor,
    /// Default: the system color of button faces.
    pub back_color: OleColor,
}

/// The properties of a command button that are not the file format default.
#[derive(Clone, Copy, Debug, PartialEq, Eq, Hash, Structural)]
pub struct CommandButtonPropMask {
    pub bits: u32,
}

impl CommandButtonPropMask {
    /// Whether the fore color is stored in the data block.
    pub const FORE_COLOR: u32 = 0x00000001;
    /// Whether the back color is stored in the data block.
    pub const BACK_COLOR: u32 = 0x00000002;
    /// Whether the various property bits are stored in the data block.
    pub const VARIOUS_PROPERTY_BITS: u32 = 0x00000004;
    /// Whether the caption is stored.
    pub const CAPTION: u32 = 0x00000008;
    /// Whether the picture position is stored in the data block.
    pub const PICTURE_POSITION: u32 = 0x00000010;
    /// Whether the size is stored in the extra data block.
    pub const SIZE: u32 = 0x00000020;
    /// Whether the mouse pointer is stored in the data block.
    pub const MOUSE_POINTER: u32 = 0x00000040;
    /// Whether the picture is stored in the stream data.
    pub const PICTURE: u32 = 0x00000080;
    /// Whether the accelerator is stored in the data block.
    pub const ACCELERATOR: u32 = 0x00000100;
    /// Whether the control does not take the focus when clicked; this bit is the value itself.
    pub const TAKE_FOCUS_ON_CLICK: u32 = 0x00000200;
    /// Whether the mouse icon is stored in the stream data.
    pub const MOUSE_ICON: u32 = 0x00000400;
    /// Every declared bit.
    pub const ALL: u32 = 0x000007FF;

    /// The set with exactly the bits of `bits`, unless one of them is not declared.
    pub fn from_bits(bits: u32) -> (r: Option<CommandButtonPropMask>)
        ensures
            r == (if bits & !CommandButtonPropMask::ALL == 0 {
                Some(CommandButtonPropMask { bits })
            } else {
                None
            }),
    {
        if bits & !CommandButtonPropMask::ALL == 0 {
            Some(CommandButtonPropMask { bits })
        } else {
            None
        }
    }

    /// The raw bits.
    #[verifier::allow_in_spec]
    pub fn bits(&self) -> (r: u32)
        returns
            self.bits,
    {
        self.bits
    }

    /// Whether every bit of `flags` is set.
    #[verifier::allow_in_spec]
    pub fn contains(&self, flags: u32) -> (r: bool)
        returns
            (self.bits & flags == flags),
    {
        self.bits & flags == flags
    }
}

/// The part of the fixed block of a command button that is decoded, in file order.
pub open spec fn command_button_props() -> Seq<Prop> {
    seq![
        Prop::new(CommandButtonPropMask::FORE_COLOR, 4, Check::Color, 0x8000_0012, Field::ForeColor),
        Prop::new(CommandButtonPropMask::BACK_COLOR, 4, Check::Color, 0x8000_000F, Field::BackColor),
    ]
}

/// The table of [`command_button_props`].
pub fn command_button_table() -> (t: [Prop; 2])
    ensures
        t@ == command_button_props(),
        props_wf(t@),
{
    let t: [Prop; 2] = [
        Prop::new(CommandButtonPropMask::FORE_COLOR, 4, Check::Color, 0x8000_0012, Field::ForeColor),
        Prop::new(CommandButtonPropMask::BACK_COLOR, 4, Check::Color, 0x8000_000F, Field::BackColor),
    ];
    assert(t@ =~= command_button_props());
    t
}

/// The button that the raw values of its fixed block stand for.
pub open spec fn command_button_of(vals: Seq<u32>) -> CommandButtonControl {
    CommandButtonControl {
        fore_color: OleColor::spec_from_u32(vals[0]).unwrap(),
        back_color: OleColor::spec_from_u32(vals[1]).unwrap(),
    }
}

/// The button that a body decodes to under `mask`: the fixed block of
/// [`command_button_props`] on a cursor that starts at zero. Offsets count
/// from the start of the body.
pub open spec fn spec_command_button_body(body: Seq<u8>, mask: u32) -> Result<
    CommandButtonControl,
    DecodeError,
> {
    match fixed_block(RecordKind::CommandButton, command_button_props(), mask, body, 0, 0, 2) {
        Err(e) => Err(e),
        Ok(vals) => Ok(command_button_of(vals)),
    }
}

/// Decodes the body of a command button: the bytes that follow its property mask.
pub fn read_command_button_body(body: &[u8], mask: u32) -> (r: Result<CommandButtonControl, DecodeError>)
    ensures
        r == spec_command_button_body(body@, mask),
        r matches Err(e) ==> e.offset <= body@.len(),
{
    let record = RecordKind::CommandButton;
    let mut ap = AlignedParser::new();
    let table = command_button_table();
    let (vals, _) = read_fixed_block(record, table.as_slice(), mask, body, 0, &mut ap)?;
    proof {
        lemma_fixed_block_ok(record, table@, mask, body@, 0, 0, 2);
        assert(check_ok(table@[0].check, vals@[0]));
        assert(check_ok(table@[1].check, vals@[1]));
    }
    Ok(
        CommandButtonControl {
            fore_color: OleColor::from_u32(vals[0]).unwrap(),
            back_color: OleColor::from_u32(vals[1]).unwrap(),
        },
    )
}

/// The command button at the start of `input`: the header `00 02` with a
/// byte count, the property mask, and a body of that many bytes. The button
/// takes the header, the mask and the whole body, whatever part of the body
/// its fields fill.
pub open spec fn spec_parse_command_button(input: Seq<u8>) -> Result<
    (CommandButtonControl, int),
    DecodeError,
> {
    let rec = RecordKind::CommandButton;
    match spec_header(rec, input, 0, 0x00, 0x02) {
        Err(e) => Err(e),
        Ok((count, p)) => match spec_mask(rec, input, p, CommandButtonPropMask::ALL) {
            Err(e) => Err(e),
            Ok(mask) => if p + 4 + count > input.len() {
                Err(DecodeError::at(ErrorKind::Truncated, rec, Field::Data, p + 4))
            } else {
                match spec_command_button_body(input.subrange(p + 4, p + 4 + count), mask) {
                    Ok(button) => Ok((button, p + 4 + count)),
                    Err(e) => Err(e.spec_shifted(p + 4)),
                }
            },
        },
    }
}

/// The header of a command button at the start of `input`.
pub open spec fn spec_parse_command_button_header(input: Seq<u8>) -> Result<(u16, int), DecodeError> {
    spec_header(RecordKind::CommandButton, input, 0, 0x00, 0x02)
}

/// Decodes the header of a command button and returns its byte count.
pub fn parse_command_button_header<'a>(input: &'a [u8]) -> (r: Result<(&'a [u8], u16), DecodeError>)
    ensures
        decoded(r, input@, spec_parse_command_button_header(input@)),
{
    let (count, next) = read_header(RecordKind::CommandButton, input, 0, 0x00, 0x02)?;
    Ok((rest_of(input, next), count))
}

/// Decodes a command button from the start of `input`.
pub fn parse_command_button<'a>(input: &'a [u8]) -> (r: Result<
    (&'a [u8], CommandButtonControl),
    DecodeError,
>)
    ensures
        decoded(r, input@, spec_parse_command_button(input@)),
{
    let record = RecordKind::CommandButton;
    let len = input.len();
    let (count, p) = read_header(record, input, 0, 0x00, 0x02)?;
    let mut ap = AlignedParser::new();
    let mask = read_mask(record, input, p, CommandButtonPropMask::ALL, &mut ap)?;
    let start = p + 4;
    if len - start < count as usize {
        return Err(DecodeError { kind: ErrorKind::Truncated, record, field: Field::Data, offset: start });
    }
    let end = start + count as usize;
    match read_command_button_body(slice_subrange(input, start, end), mask) {
        Ok(button) => Ok((rest_of(input, end), button)),
        Err(e) => Err(e.shifted(start)),
    }
}

/// Strict rejection of reserved mask bits: a command button whose property
/// mask has a bit that is not declared fails with `UnknownBits` of the mask.
pub proof fn lemma_command_button_rejects_unknown_mask_bits(input: Seq<u8>)
    requires
        input.len() >= 8,
        input[0] == 0x00,
        input[1] == 0x02,
        le_value(input, 4, 4) & !CommandButtonPropMask::ALL != 0,
    ensures
        spec_parse_command_button(input) == Err::<(CommandButtonControl, int), DecodeError>(
            DecodeError::at(
                ErrorKind::UnknownBits(le_value(input, 4, 4)),
                RecordKind::CommandButton,
                Field::PropMask,
                4,
            ),
        ),
{
}

/// Default preservation for command buttons: a color whose mask bit is clear
/// has its file format default.
pub proof fn lemma_command_button_defaults(body: Seq<u8>, mask: u32)
    requires
        spec_command_button_body(body, mask) is Ok,
    ensures
        mask & CommandButtonPropMask::FORE_COLOR == 0 ==> spec_command_button_body(
            body,
            mask,
        )->Ok_0.fore_color == OleColor::BTNTEXT(),
        mask & CommandButtonPropMask::BACK_COLOR == 0 ==> spec_command_button_body(
            body,
            mask,
        )->Ok_0.back_color == OleColor::BTNFACE(),
{
    lemma_fixed_block_ok(RecordKind::CommandButton, command_button_props(), mask, body, 0, 0, 2);
}

} // verus!
