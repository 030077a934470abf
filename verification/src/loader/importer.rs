//! What a loader hands to the virtual machine that it prepares.

use vstd::prelude::*;

verus! {

/// A segment register of an x86 processor.
#[derive(Debug, Copy, Clone, PartialEq, Eq, Structural)]
pub struct SegmentRegister {
    pub base: u64,
    pub limit: u32,
    pub selector: u16,
    pub attributes: u16,
}

/// An initial register value of an x86 processor.
#[derive(Debug, Copy, Clone, PartialEq, Eq, Structural)]
pub enum X86Register {
    Cs(SegmentRegister),
    MtrrDefType(u64),
    MtrrFix64k00000(u64),
    MtrrFix16k80000(u64),
    MtrrFix4kE0000(u64),
    MtrrFix4kE8000(u64),
    MtrrFix4kF0000(u64),
    MtrrFix4kF8000(u64),
}

/// Why an importer did not take a register.
#[derive(Debug, Copy, Clone)]
pub struct ImportError {
    /// The register that was refused.
    pub register: X86Register,
}

/// The side of a virtual machine that takes initial register values.
pub trait ImageLoad {
    /// The registers that were taken so far, in the order in which they
    /// came.
    spec fn imported(&self) -> Seq<X86Register>;

    /// Whether the importer, as it is now, would refuse `register`.
    spec fn refuses(&self, register: X86Register) -> bool;

    /// Hands one register to the importer. A register that is taken is the
    /// last of those imported; one that is refused leaves no trace.
    fn import_vp_register(&mut self, register: X86Register) -> (out: Result<(), ImportError>)
        ensures
            out is Err <==> old(self).refuses(register),
            out is Ok ==> final(self).imported() == old(self).imported().push(register),
            out is Err ==> final(self).imported() == old(self).imported(),
    ;
}

/// Which register a value is for: the position of its variant.
pub open spec fn register_kind(register: X86Register) -> nat {
    match register {
        X86Register::Cs(_) => 0,
        X86Register::MtrrDefType(_) => 1,
        X86Register::MtrrFix64k00000(_) => 2,
        X86Register::MtrrFix16k80000(_) => 3,
        X86Register::MtrrFix4kE0000(_) => 4,
        X86Register::MtrrFix4kE8000(_) => 5,
        X86Register::MtrrFix4kF0000(_) => 6,
        X86Register::MtrrFix4kF8000(_) => 7,
    }
}

/// Whether `registers` hold a value for the register that `register` is
/// for.
pub open spec fn holds_kind(registers: Seq<X86Register>, register: X86Register) -> bool {
    exists|i: int|
        0 <= i < registers.len() && register_kind(#[trigger] registers[i]) == register_kind(
            register,
        )
}

/// Which register a value is for.
fn kind_of(register: &X86Register) -> (kind: u8)
    ensures
        kind == register_kind(*register),
{
    match register {
        X86Register::Cs(_) => 0,
        X86Register::MtrrDefType(_) => 1,
        X86Register::MtrrFix64k00000(_) => 2,
        X86Register::MtrrFix16k80000(_) => 3,
        X86Register::MtrrFix4kE0000(_) => 4,
        X86Register::MtrrFix4kE8000(_) => 5,
        X86Register::MtrrFix4kF0000(_) => 6,
        X86Register::MtrrFix4kF8000(_) => 7,
    }
}

/// An importer that keeps what it is given, in the order in which it came.
/// It takes one value for each register and refuses a second one.
pub struct Loader {
    regs: Vec<X86Register>,
}

impl Loader {
    /// A loader that has taken nothing yet.
    pub fn new() -> (loader: Self)
        ensures
            loader.imported() == Seq::<X86Register>::empty(),
    {
        Loader { regs: Vec::new() }
    }

    /// The registers that the loader has taken, in the order in which they
    /// came.
    pub fn initial_regs(self) -> (regs: Vec<X86Register>)
        ensures
            regs@ == self.imported(),
    {
        self.regs
    }
}

impl ImageLoad for Loader {
    closed spec fn imported(&self) -> Seq<X86Register> {
        self.regs@
    }

    open spec fn refuses(&self, register: X86Register) -> bool {
        holds_kind(self.imported(), register)
    }

    fn import_vp_register(&mut self, register: X86Register) -> (out: Result<(), ImportError>)
        ensures
            out matches Err(e) ==> e.register == register,
    {
        let kind = kind_of(&register);
        let mut index: usize = 0;
        while index < self.regs.len()
            invariant
                index <= self.regs@.len(),
                self.regs@ == old(self).regs@,
                kind == register_kind(register),
                !holds_kind(self.regs@.take(index as int), register),
            decreases self.regs@.len() - index,
        {
            if kind_of(&self.regs[index]) == kind {
                return Err(ImportError { register });
            }
            assert forall|i: int| 0 <= i < index + 1 implies register_kind(
                #[trigger] self.regs@.take(index + 1)[i],
            ) != register_kind(register) by {
                if i < index {
                    assert(self.regs@.take(index as int)[i] == self.regs@[i]);
                }
            }
            index += 1;
        }
        assert(self.regs@.take(index as int) == self.regs@);
        self.regs.push(register);
        Ok(())
    }
}

} // verus!
