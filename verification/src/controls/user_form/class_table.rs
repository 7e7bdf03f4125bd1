//! The class table of a form: type information of embedded controls that are
//! not among the cached classes.
use vstd::prelude::*;
use crate::common::{Guid, VarFlags, VarType};

verus! {

/// Boolean properties of a [`SiteClassInfo`].
#[derive(Clone, Copy, Debug, PartialEq, Eq, Hash, Structural)]
pub struct ClsTableFlags {
    pub bits: u16,
}

impl ClsTableFlags {
    /// Specifies whether the type information is an alias.
    pub const EXCLUSIVE_VALUE: u16 = 0x0001;
    /// Specifies whether this type information implements a dual interface.
    pub const DUAL_INTERFACE: u16 = 0x0002;
    /// Specifies whether the control does not support aggregation.
    pub const NO_AGGREGATION: u16 = 0x0004;
    /// Every declared bit.
    pub const ALL: u16 = 0x0007;

    /// The flag set with exactly the bits of `bits`, unless one of them is not declared.
    pub fn from_bits(bits: u16) -> (r: Option<ClsTableFlags>)
        ensures
            r == (if bits & !ClsTableFlags::ALL == 0 {
                Some(ClsTableFlags { bits })
            } else {
                None
            }),
    {
        if bits & !ClsTableFlags::ALL == 0 {
            Some(ClsTableFlags { bits })
        } else {
            None
        }
    }

    /// The empty flag set.
    #[verifier::allow_in_spec]
    pub fn empty() -> (r: ClsTableFlags)
        returns
            (ClsTableFlags { bits: 0 }),
    {
        ClsTableFlags { bits: 0 }
    }

    /// The raw bits.
    #[verifier::allow_in_spec]
    pub fn bits(&self) -> (r: u16)
        returns
            self.bits,
    {
        self.bits
    }

    /// Whether every bit of `flags` is set.
    #[verifier::allow_in_spec]
    pub fn contains(&self, flags: u16) -> (r: bool)
        returns
            (self.bits & flags == flags),
    {
        self.bits & flags == flags
    }
}

/// The type information of an embedded ActiveX control, as persisted to a stream.
#[derive(Clone, Copy, Debug, PartialEq, Eq, Hash, Structural)]
pub struct SiteClassInfo {
    /// Boolean properties of the type information. Default `0x0000`.
    pub class_table_flags: ClsTableFlags,
    /// Boolean properties of the type information. Default `0x0000`.
    pub var_flags: VarFlags,
    /// The number of methods on the default dual interface. Default `0`.
    pub count_of_methods: u32,
    /// The dispatch identifier of the default bindable property. Default `0xFFFFFFFF`.
    pub dispid_bind: u32,
    /// The index of the "get" function of the default bindable property. Default `0`.
    pub get_bind_index: u16,
    /// The index of the "put" function of the default bindable property. Default `0`.
    pub put_bind_index: u16,
    /// The type of the default bindable property. Default `VT_EMPTY`.
    pub bind_type: VarType,
    /// The index of the function that retrieves the value of the control. Default `0`.
    pub get_value_index: u16,
    /// The index of the function that sets the value of the control. Default `0`.
    pub put_value_index: u16,
    /// The type of the value of the control. Default `VT_EMPTY`.
    pub value_type: VarType,
    /// The dispatch identifier of the property that supplies rows. Default `0xFFFFFFFF`.
    pub dispid_rowset: u32,
    /// The index of the "set" function of that property. Default `0`.
    pub set_rowset: u16,
    /// The class of the control. Default: the nil GUID.
    pub cls_id: Guid,
    /// The source interface. Default: the interface id of IDispatch.
    pub disp_event: Guid,
    /// The default interface. Default: the interface id of IDispatch.
    pub default_proc: Guid,
}

} // verus!
