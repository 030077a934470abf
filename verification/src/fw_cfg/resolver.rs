//! A resolver for [`FwCfgHandle`] resources.

use vstd::prelude::*;
use crate::fw_cfg::file_dir::{all_valid, first_invalid};
use crate::fw_cfg::model::{FwCfgModel, MAX_MMIO_BASE};
use crate::fw_cfg::{registered_files, Error, FwCfg, FwCfgConfig, FwCfgRegisterLayout};
use crate::fw_cfg_resources::FwCfgHandle;
use crate::memory_layout::MemoryLayout;

verus! {

/// A resolver for [`FwCfgHandle`] resources.
#[derive(Debug, Copy, Clone)]
pub struct FwCfgResolver;

impl FwCfgResolver {
    /// Builds the device that `resource` stands for, in a virtual machine
    /// with `mem_layout`. The device has the files that it registers by
    /// itself and no others.
    pub fn resolve(&self, resource: FwCfgHandle, mem_layout: MemoryLayout) -> (out: Result<
        FwCfg,
        Error,
    >)
        requires
            resource.register_layout matches FwCfgRegisterLayout::Mmio(base) ==> base
                <= MAX_MMIO_BASE,
        ensures
            out is Ok <==> all_valid(registered_files(mem_layout, Seq::empty())),
            out matches Ok(device) ==> {
                &&& device@ == FwCfgModel::power_on(
                    resource.register_layout,
                    registered_files(mem_layout, Seq::empty()),
                )
                &&& device@.wf()
            },
            out matches Err(e) ==> exists|i: int|
                {
                    &&& first_invalid(registered_files(mem_layout, Seq::empty()), i)
                    &&& e.reports(#[trigger] registered_files(mem_layout, Seq::empty())[i])
                },
    {
        FwCfg::new(
            FwCfgConfig { register_layout: resource.register_layout, mem_layout, files: Vec::new() },
        )
    }
}

} // verus!
