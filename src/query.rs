//! Values that the driver queries take.
use vstd::prelude::*;

verus! {

/// Dword offset of the GRBM_STATUS register (GFX8 and older layout).
pub const GRBM_STATUS_OFFSET: u32 = 0x2004;

/// Dword offset of the GRBM_STATUS2 register (GFX8 and older layout).
pub const GRBM_STATUS2_OFFSET: u32 = 0x2002;

/// Software information that the helper library can be asked for.
#[allow(non_camel_case_types)]
#[derive(Clone, Copy, Debug, PartialEq, Eq, Structural)]
pub enum amdgpu_sw_info {
    /// Upper 32 bits of the 32-bit address space.
    address32_hi,
}

impl amdgpu_sw_info {
    /// The id that the query passes for this item.
    pub fn id(&self) -> (r: u32)
        ensures
            *self == amdgpu_sw_info::address32_hi ==> r == 0,
    {
        match self {
            amdgpu_sw_info::address32_hi => 0,
        }
    }
}

} // verus!
