//! SeaBIOS specific loader definitions and implementation.

use vstd::prelude::*;
use crate::loader::importer::{ImageLoad, ImportError, SegmentRegister, X86Register};

verus! {

#[derive(Debug, Copy, Clone)]
pub enum Error {
    /// The importer refused a register.
    Importer(ImportError),
}

/// The registers with which a processor enters SeaBIOS: the code segment
/// maps the reset vector at the top of 4 GB, as the x86 architecture
/// defines it.
pub open spec fn seabios_registers() -> Seq<X86Register> {
    seq![
        X86Register::Cs(
            SegmentRegister {
                base: 0xFFFF0000,
                limit: 0xFFFF,
                selector: 0xF000,
                attributes: 0x9B,
            },
        ),
    ]
}

/// Setup initial register state to support booting via SeaBIOS.
///
/// The actual SeaBIOS image is "loaded" into the guest address space by
/// other parts of the VMM, which model the special ROM and memory-mirroring
/// semantics it requires in order to operate.
///
/// The one register of [`seabios_registers`] goes to the importer. The load
/// fails only where the importer refuses it, and nothing was imported then.
pub fn load<I: ImageLoad>(importer: &mut I) -> (out: Result<(), Error>)
    ensures
        out is Err <==> old(importer).refuses(seabios_registers()[0]),
        out is Ok ==> final(importer).imported() == old(importer).imported()
            + seabios_registers(),
        out is Err ==> final(importer).imported() == old(importer).imported(),
{
    // SeaBIOS expects the reset vector to be mapped at the top of 4GB, as
    // defined by the x86 architecture.
    let cs = X86Register::Cs(
        SegmentRegister { base: 0xFFFF0000, limit: 0xFFFF, selector: 0xF000, attributes: 0x9B },
    );
    match importer.import_vp_register(cs) {
        Ok(()) => {
            Ok(())
        },
        Err(e) => Err(Error::Importer(e)),
    }
}

} // verus!
