//! The loaders as a virtual machine worker calls them.

use vstd::prelude::*;
use crate::loader::importer::{Loader, X86Register};
use crate::loader::seabios::seabios_registers;

verus! {

#[derive(Debug, Copy, Clone)]
pub enum Error {
    /// The SeaBIOS loader failed.
    Loader(crate::loader::seabios::Error),
}

/// Load SeaBIOS.
///
/// Since the BIOS is in ROM, this actually just returns the SeaBIOS initial
/// registers.
pub fn load_seabios() -> (out: Result<Vec<X86Register>, Error>)
    ensures
        out matches Ok(regs) && regs@ == seabios_registers(),
{
    let mut loader = Loader::new();
    match crate::loader::seabios::load(&mut loader) {
        Ok(()) => {
            Ok(loader.initial_regs())
        },
        Err(e) => Err(Error::Loader(e)),
    }
}

} // verus!
