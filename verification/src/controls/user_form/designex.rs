//! The design extender of a form. The decoder does not read it; the types
//! describe what a form with persisted design properties holds.
use vstd::prelude::*;

verus! {

/// Design-time Boolean properties of a form.
pub type DXMode = u32;

/// What a click on a control does at design time.
#[derive(Clone, Copy, Debug, PartialEq, Eq, Hash, Structural)]
pub enum ClickControlMode {
    /// Use the same value as the client application design-time settings (`-2`).
    Inherit,
    /// Use the client application default value (`-1`).
    Default,
    /// Select the control under the cursor and set the insertion point, both on the same click (`0`).
    InsertionPoint,
    /// If the control under the cursor is selected, set the insertion point; otherwise select it (`1`).
    SelectThenInsert,
}

/// What a double click on a control does at design time.
#[derive(Clone, Copy, Debug, PartialEq, Eq, Hash, Structural)]
pub enum DblClickControlMode {
    /// Use the same value as the client application design-time settings (`0xFE`).
    Inherit,
    /// Select any text that is under the cursor (`0x00`).
    SelectText,
    /// Display the code associated with the control that is under the cursor (`0x01`).
    EditCode,
    /// Display the properties of the control that is under the cursor (`0x02`).
    EditProperties,
}

/// The design-time properties of a form.
#[derive(Clone, Copy, Debug, PartialEq, Eq, Hash, Structural)]
pub struct DesignExtender {
    /// Default `0x00015F55`.
    pub bit_flags: DXMode,
    /// Default: insertion point.
    pub click_control_mode: ClickControlMode,
    /// Default: select text.
    pub double_click_control_mode: DblClickControlMode,
    pub grid_x: i32,
    pub grid_y: i32,
}

} // verus!
