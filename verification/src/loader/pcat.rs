//! PCAT specific loader definitions and implementation.

use vstd::prelude::*;
use crate::loader::importer::{ImageLoad, ImportError, SegmentRegister, X86Register};

verus! {

#[derive(Debug, Copy, Clone)]
pub enum Error {
    /// The importer refused a register.
    Importer(ImportError),
}

/// Memory type of the fixed ranges: every one of their eight parts is
/// write-back.
pub const MTRR_FIXED_WRITE_BACK: u64 = 0x0606060606060606;

/// The registers with which a processor enters the PCAT BIOS.
///
/// MTRRs are on, with uncached as the default type, and the 640 KB at the
/// bottom and the 128 KB below 1 MB are write-back. The code segment maps
/// the reset vector at the top of 1 MB, which is where the PCAT BIOS
/// expects it.
pub open spec fn pcat_registers() -> Seq<X86Register> {
    seq![
        X86Register::MtrrDefType(0xc00),
        X86Register::MtrrFix64k00000(MTRR_FIXED_WRITE_BACK),
        X86Register::MtrrFix16k80000(MTRR_FIXED_WRITE_BACK),
        X86Register::MtrrFix4kE0000(MTRR_FIXED_WRITE_BACK),
        X86Register::MtrrFix4kE8000(MTRR_FIXED_WRITE_BACK),
        X86Register::MtrrFix4kF0000(MTRR_FIXED_WRITE_BACK),
        X86Register::MtrrFix4kF8000(MTRR_FIXED_WRITE_BACK),
        X86Register::Cs(
            SegmentRegister { base: 0xF0000, limit: 0xFFFF, selector: 0xF000, attributes: 0x9B },
        ),
    ]
}

/// The registers of [`pcat_registers`], in their order.
fn register_list() -> (registers: [X86Register; 8])
    ensures
        registers@ == pcat_registers(),
{
    let registers = [
        // Enable MTRRs, default MTRR is uncached, and set lowest 640KB and highest 128KB as WB
        X86Register::MtrrDefType(0xc00),
        X86Register::MtrrFix64k00000(MTRR_FIXED_WRITE_BACK),
        X86Register::MtrrFix16k80000(MTRR_FIXED_WRITE_BACK),
        X86Register::MtrrFix4kE0000(MTRR_FIXED_WRITE_BACK),
        X86Register::MtrrFix4kE8000(MTRR_FIXED_WRITE_BACK),
        X86Register::MtrrFix4kF0000(MTRR_FIXED_WRITE_BACK),
        X86Register::MtrrFix4kF8000(MTRR_FIXED_WRITE_BACK),
        // The PCAT bios expects the reset vector to be mapped at the top of 1MB, not the
        // architectural reset value at the top of 4GB, so set CS to the same values HyperV
        // does to ensure things work across all virtualization stacks.
        X86Register::Cs(
            SegmentRegister { base: 0xF0000, limit: 0xFFFF, selector: 0xF000, attributes: 0x9B },
        ),
    ];
    registers
}

/// Setup initial register state to support booting via PCAT BIOS.
///
/// The actual PCAT BIOS image is "loaded" into the guest address space by
/// other parts of the VMM, which model the special ROM and memory-mirroring
/// semantics it requires in order to operate.
///
/// The registers of [`pcat_registers`] go to the importer in their order.
/// The load fails only where the importer refuses one of them. It stops
/// there: the registers before it were taken, and none after it was
/// offered.
pub fn load<I: ImageLoad>(importer: &mut I) -> (out: Result<(), Error>)
    ensures
        out is Ok ==> final(importer).imported() == old(importer).imported() + pcat_registers(),
        out is Err ==> exists|taken: int, refusing: I|
            {
                &&& 0 <= taken < pcat_registers().len()
                &&& #[trigger] refusing.refuses(pcat_registers()[taken])
                &&& refusing.imported() == old(importer).imported() + pcat_registers().take(taken)
                &&& final(importer).imported() == refusing.imported()
            },
{
    let registers = register_list();
    let ghost before = importer.imported();
    let mut index: usize = 0;
    while index < 8
        invariant
            index <= 8,
            registers@ == pcat_registers(),
            before == old(importer).imported(),
            importer.imported() == before + pcat_registers().take(index as int),
        decreases 8 - index,
    {
        match importer.import_vp_register(registers[index]) {
            Ok(()) => {},
            Err(e) => {
                return Err(Error::Importer(e));
            },
        }
        index += 1;
    }
    Ok(())
}

} // verus!
