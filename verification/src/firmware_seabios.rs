//! SeaBIOS helper device.
//!
//! The device owns the mapping of the SeaBIOS ROM into guest memory and
//! nothing else: the firmware is configured through the `fw_cfg` device. It
//! decides where the ROM goes; the host maps it there.

use vstd::prelude::*;
use crate::chipset_device::{ChangeDeviceState, ChipsetDevice};
use crate::save_restore::{NoSavedState, RestoreError, SaveError, SaveRestore};

verus! {

/// The size that a SeaBIOS ROM must have: 256 KB.
pub const SEABIOS_ROM_SIZE: u64 = 0x40000;

/// How many mappings bring the ROM into guest memory.
pub const ROM_MAPPING_COUNT: usize = 6;

/// One mapping of a part of the ROM into guest memory.
#[derive(Debug, Copy, Clone, PartialEq, Eq, Structural)]
pub struct RomMapping {
    /// Guest physical address at which the part appears.
    pub gpa: u64,
    /// Offset of the part within the ROM.
    pub offset: u64,
    /// Length of the part in bytes.
    pub len: u64,
}

/// SeaBIOS device runtime dependencies.
#[derive(Debug, Copy, Clone)]
pub struct SeabiosRuntimeDeps {
    /// The length of the BIOS ROM.
    ///
    /// If missing, then assume the ROM is already in memory.
    pub rom: Option<u64>,
}

/// Errors which may occur during SeaBIOS helper device initialization.
#[derive(Debug, Copy, Clone)]
pub enum SeabiosDeviceInitError {
    /// The ROM does not have 256 KB; the value is its size.
    InvalidRomSize(u64),
}

/// Where the ROM is mapped. The whole ROM ends at 4 GB. Its upper half also
/// appears below 1 MB, in the parts in which the x86 memory map divides that
/// range.
pub open spec fn rom_mappings() -> Seq<RomMapping> {
    seq![
        RomMapping { gpa: 0xfffc0000, offset: 0, len: 0x40000 },
        RomMapping { gpa: 0xe0000, offset: 0x20000, len: 0x4000 },
        RomMapping { gpa: 0xe4000, offset: 0x24000, len: 0x4000 },
        RomMapping { gpa: 0xe8000, offset: 0x28000, len: 0x4000 },
        RomMapping { gpa: 0xec000, offset: 0x2c000, len: 0x4000 },
        RomMapping { gpa: 0xf0000, offset: 0x30000, len: 0x10000 },
    ]
}

/// Every mapping lies within the ROM. The first ends at 4 GB. The others
/// follow one another without a gap, in guest memory from `0xe0000` to 1 MB
/// and in the ROM from its middle to its end.
pub proof fn lemma_rom_mappings_tile(index: int)
    requires
        0 <= index < rom_mappings().len(),
    ensures
        rom_mappings().len() == ROM_MAPPING_COUNT,
        rom_mappings()[index].offset + rom_mappings()[index].len <= SEABIOS_ROM_SIZE,
        rom_mappings()[0].gpa + rom_mappings()[0].len == 0x1_0000_0000,
        rom_mappings()[1].gpa == 0xe0000,
        rom_mappings()[1].offset == SEABIOS_ROM_SIZE / 2,
        1 <= index < rom_mappings().len() - 1 ==> {
            &&& rom_mappings()[index].gpa + rom_mappings()[index].len == rom_mappings()[index
                + 1].gpa
            &&& rom_mappings()[index].offset + rom_mappings()[index].len == rom_mappings()[index
                + 1].offset
        },
        rom_mappings()[5].gpa + rom_mappings()[5].len == 0x10_0000,
        rom_mappings()[5].offset + rom_mappings()[5].len == SEABIOS_ROM_SIZE,
{
}

/// SeaBIOS helper device.
pub struct SeabiosDevice {
    rom_mems: Vec<RomMapping>,
}

impl SeabiosDevice {
    /// The mappings that the device holds.
    pub closed spec fn mappings(&self) -> Seq<RomMapping> {
        self.rom_mems@
    }

    /// Create a new instance of the SeaBIOS helper device.
    ///
    /// A ROM must have 256 KB. The device of a ROM holds the mappings of
    /// [`rom_mappings`]; without a ROM it holds none.
    pub fn new(runtime_deps: SeabiosRuntimeDeps) -> (out: Result<
        SeabiosDevice,
        SeabiosDeviceInitError,
    >)
        ensures
            match runtime_deps.rom {
                Some(rom_size) if rom_size != SEABIOS_ROM_SIZE => out matches Err(
                    SeabiosDeviceInitError::InvalidRomSize(size),
                ) && size == rom_size,
                Some(_) => out matches Ok(device) && device.mappings() == rom_mappings(),
                None => out matches Ok(device) && device.mappings() == Seq::<RomMapping>::empty(),
            },
    {
        let SeabiosRuntimeDeps { rom } = runtime_deps;

        let mut rom_mems: Vec<RomMapping> = Vec::new();
        if let Some(rom_size) = rom {
            if rom_size != SEABIOS_ROM_SIZE {
                return Err(SeabiosDeviceInitError::InvalidRomSize(rom_size));
            }
            // Map the ROM at both high and low memory.

            rom_mems.push(RomMapping { gpa: 0xfffc0000, offset: 0, len: 0x40000 });
            // need to carefully chunk the rom mapping to account for the
            // distinct x86 memory regions below 1mb.
            let mut chunk: u64 = 0;
            while chunk < 4
                invariant
                    chunk <= 4,
                    rom_mems@ == rom_mappings().take(1 + chunk),
                decreases 4 - chunk,
            {
                rom_mems.push(
                    RomMapping {
                        gpa: 0xe0000 + 0x4000 * chunk,
                        offset: 0x20000 + 0x4000 * chunk,
                        len: 0x4000,
                    },
                );
                chunk += 1;
            }
            rom_mems.push(RomMapping { gpa: 0xf0000, offset: 0x20000 + 0x4000 * 4, len: 0x10000 });
        }
        Ok(SeabiosDevice { rom_mems })
    }

    /// The mappings that the host is to make, in this order.
    pub fn rom_mappings(&self) -> (mappings: &[RomMapping])
        ensures
            mappings@ == self.mappings(),
    {
        self.rom_mems.as_slice()
    }
}

impl ChangeDeviceState for SeabiosDevice {
    fn start(&mut self)
        ensures
            final(self).mappings() == old(self).mappings(),
    {
    }

    fn stop(&mut self)
        ensures
            final(self).mappings() == old(self).mappings(),
    {
    }

    fn reset(&mut self)
        ensures
            final(self).mappings() == old(self).mappings(),
    {
    }
}

impl ChipsetDevice for SeabiosDevice {
    fn supports_pio(&self) -> (supported: bool)
        ensures
            !supported,
    {
        false
    }

    fn supports_mmio(&self) -> (supported: bool)
        ensures
            !supported,
    {
        false
    }
}

impl SaveRestore for SeabiosDevice {
    type SavedState = NoSavedState;

    /// The device has no volatile state; it saves the empty state.
    fn save(&mut self) -> (saved: Result<NoSavedState, SaveError>)
        ensures
            saved is Ok,
            final(self).mappings() == old(self).mappings(),
    {
        Ok(NoSavedState)
    }

    fn restore(&mut self, state: NoSavedState) -> (restored: Result<(), RestoreError>)
        ensures
            restored is Ok,
            final(self).mappings() == old(self).mappings(),
    {
        Ok(())
    }
}

} // verus!
