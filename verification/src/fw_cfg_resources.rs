//! Resources for the `fw_cfg` device.

use vstd::prelude::*;

pub use crate::fw_cfg::FwCfgFile;
pub use crate::fw_cfg::FwCfgRegisterLayout;

verus! {

/// A handle to the `fw_cfg` device.
#[derive(Debug, Copy, Clone)]
pub struct FwCfgHandle {
    /// `fw_cfg` register layout
    pub register_layout: FwCfgRegisterLayout,
}

impl FwCfgHandle {
    /// The name under which the handle is resolved.
    pub const ID: &'static str = "fw_cfg";
}

} // verus!
