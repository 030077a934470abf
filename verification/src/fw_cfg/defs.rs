//! Registers, selectors and wire structures of the firmware configuration
//! device.

use vstd::prelude::*;
use crate::bits::{bit32, get_bit32, one_bit_written32, set_bit32, with_bit32};
use crate::endian::{be16, be32, from_be32, from_be64, u16_to_be, u32_to_be, u32_from_be, u64_from_be};

verus! {

/// Key of an item of the device. Any 16-bit value may be selected; the named
/// ones are those that guests are known to use.
#[derive(Debug, Copy, Clone, PartialEq, Eq, Structural)]
pub struct Selector(pub u16);

impl Selector {
    pub const SIGNATURE: u16 = 0x0;

    pub const ID: u16 = 0x1;

    pub const FILE_DIR: u16 = 0x19;

    pub const UUID: u16 = 0x02;

    pub const NOGRAPHIC: u16 = 0x04;

    pub const NUMA: u16 = 0x0d;

    pub const BOOT_MENU: u16 = 0x0e;

    pub const NB_CPUS: u16 = 0x05;

    pub const MAX_CPUS: u16 = 0x0f;

    pub const X86_ACPI_TABLES: u16 = 0x8000;

    pub const X86_SMBIOS_ENTRIES: u16 = 0x8001;

    pub const X86_IRQ0_OVERRIDE: u16 = 0x8002;

    pub const X86_E820_TABLE: u16 = 0x8003;

    /// Selector of the first registered file; the others follow in the
    /// order of their registration.
    pub const BASE_FILE: u16 = 0x20;

    /// First selector behind the range of the files.
    pub const BASE_ARCH_LOCAL: u16 = 0x8000;

    pub fn from_bits(v: u16) -> (selector: Self)
        ensures
            selector.0 == v,
    {
        Self(v)
    }

    pub fn into_bits(self) -> (v: u16)
        ensures
            v == self.0,
    {
        self.0
    }
}

/// Port of a register in the fixed I/O port layout.
pub struct PioRegisters(pub u16);

impl PioRegisters {
    /// 16-bit, overlaps with `DATA`.
    pub const SELECTOR: u16 = 0x510;

    /// 8-bit.
    pub const DATA: u16 = 0x511;

    /// 32-bit.
    pub const DMA_HI: u16 = 0x514;

    /// 32-bit.
    pub const DMA_LO: u16 = 0x518;
}

/// Offset of a register from the base of the memory-mapped layout.
pub struct MmioRegister(pub u64);

impl MmioRegister {
    /// Variable width.
    pub const DATA: u64 = 0;

    /// 16-bit.
    pub const SELECTOR: u64 = 8;

    /// 32-bit.
    pub const DMA_HI: u64 = 16;

    /// 32-bit.
    pub const DMA_LO: u64 = 20;
}

/// The feature bitmap that the guest reads under [`Selector::ID`].
#[derive(Debug, Copy, Clone)]
pub struct IdBitmap(pub u32);

impl IdBitmap {
    pub const TRAD: u32 = 0;

    pub const DMA: u32 = 1;

    /// The bitmap with no feature.
    pub fn new() -> (bitmap: Self)
        ensures
            bitmap.0 == 0,
    {
        IdBitmap(0)
    }

    pub fn from_bits(bits: u32) -> (bitmap: Self)
        ensures
            bitmap.0 == bits,
    {
        IdBitmap(bits)
    }

    pub fn into_bits(self) -> (bits: u32)
        ensures
            bits == self.0,
    {
        self.0
    }

    /// Whether items can be read through the selector and data registers.
    #[verifier::allow_in_spec]
    pub fn trad(self) -> bool
        returns
            bit32(self.0, Self::TRAD),
    {
        get_bit32(self.0, Self::TRAD)
    }

    /// Whether items can be transferred by DMA.
    #[verifier::allow_in_spec]
    pub fn dma(self) -> bool
        returns
            bit32(self.0, Self::DMA),
    {
        get_bit32(self.0, Self::DMA)
    }

    pub fn with_trad(self, value: bool) -> (bitmap: Self)
        ensures
            bitmap.0 == with_bit32(self.0, Self::TRAD, value),
            one_bit_written32(self.0, bitmap.0, Self::TRAD, value),
    {
        IdBitmap(set_bit32(self.0, Self::TRAD, value))
    }

    pub fn with_dma(self, value: bool) -> (bitmap: Self)
        ensures
            bitmap.0 == with_bit32(self.0, Self::DMA, value),
            one_bit_written32(self.0, bitmap.0, Self::DMA, value),
    {
        IdBitmap(set_bit32(self.0, Self::DMA, value))
    }
}

/// The selector in the high half of a DMA control word.
pub open spec fn control_selector(bits: u32) -> u16 {
    (bits / 0x1_0000) as u16
}

/// `bits` with `selector` as the high half and the low half kept.
pub open spec fn with_control_selector(bits: u32, selector: u16) -> u32 {
    (selector * 0x1_0000 + bits % 0x1_0000) as u32
}

/// The control word of a DMA descriptor.
#[derive(Debug, Copy, Clone)]
pub struct DmaControl(pub u32);

impl DmaControl {
    pub const ERROR: u32 = 0;

    pub const READ: u32 = 1;

    pub const SKIP: u32 = 2;

    pub const SELECT: u32 = 3;

    pub const WRITE: u32 = 4;

    /// The control word with every bit clear.
    pub fn new() -> (control: Self)
        ensures
            control.0 == 0,
    {
        DmaControl(0)
    }

    pub fn from_bits(bits: u32) -> (control: Self)
        ensures
            control.0 == bits,
    {
        DmaControl(bits)
    }

    pub fn into_bits(self) -> (bits: u32)
        ensures
            bits == self.0,
    {
        self.0
    }

    /// Set by the device where the operation failed.
    #[verifier::allow_in_spec]
    pub fn error(self) -> bool
        returns
            bit32(self.0, Self::ERROR),
    {
        get_bit32(self.0, Self::ERROR)
    }

    /// The guest asks for item bytes to be copied into its memory.
    #[verifier::allow_in_spec]
    pub fn read(self) -> bool
        returns
            bit32(self.0, Self::READ),
    {
        get_bit32(self.0, Self::READ)
    }

    /// The guest asks for item bytes to be passed over.
    #[verifier::allow_in_spec]
    pub fn skip(self) -> bool
        returns
            bit32(self.0, Self::SKIP),
    {
        get_bit32(self.0, Self::SKIP)
    }

    /// The guest asks for the selector of the control word to be selected
    /// before the transfer.
    #[verifier::allow_in_spec]
    pub fn select(self) -> bool
        returns
            bit32(self.0, Self::SELECT),
    {
        get_bit32(self.0, Self::SELECT)
    }

    /// The guest asks for bytes of its memory to be copied into the item.
    #[verifier::allow_in_spec]
    pub fn write(self) -> bool
        returns
            bit32(self.0, Self::WRITE),
    {
        get_bit32(self.0, Self::WRITE)
    }

    /// The selector in the high half of the word.
    pub fn selector(self) -> (selector: Selector)
        ensures
            selector.0 == control_selector(self.0),
    {
        let bits = self.0;
        assert(bits >> 16 == bits / 0x1_0000) by (bit_vector);
        Selector::from_bits((bits >> 16) as u16)
    }

    pub fn with_error(self, value: bool) -> (control: Self)
        ensures
            control.0 == with_bit32(self.0, Self::ERROR, value),
            one_bit_written32(self.0, control.0, Self::ERROR, value),
    {
        DmaControl(set_bit32(self.0, Self::ERROR, value))
    }

    pub fn with_read(self, value: bool) -> (control: Self)
        ensures
            control.0 == with_bit32(self.0, Self::READ, value),
            one_bit_written32(self.0, control.0, Self::READ, value),
    {
        DmaControl(set_bit32(self.0, Self::READ, value))
    }

    pub fn with_skip(self, value: bool) -> (control: Self)
        ensures
            control.0 == with_bit32(self.0, Self::SKIP, value),
            one_bit_written32(self.0, control.0, Self::SKIP, value),
    {
        DmaControl(set_bit32(self.0, Self::SKIP, value))
    }

    pub fn with_select(self, value: bool) -> (control: Self)
        ensures
            control.0 == with_bit32(self.0, Self::SELECT, value),
            one_bit_written32(self.0, control.0, Self::SELECT, value),
    {
        DmaControl(set_bit32(self.0, Self::SELECT, value))
    }

    pub fn with_write(self, value: bool) -> (control: Self)
        ensures
            control.0 == with_bit32(self.0, Self::WRITE, value),
            one_bit_written32(self.0, control.0, Self::WRITE, value),
    {
        DmaControl(set_bit32(self.0, Self::WRITE, value))
    }

    pub fn with_selector(self, value: Selector) -> (control: Self)
        ensures
            control.0 == with_control_selector(self.0, value.0),
    {
        let low: u32 = self.0 % 0x1_0000;
        let high: u32 = value.into_bits() as u32;
        DmaControl(high * 0x1_0000 + low)
    }
}

/// A DMA descriptor, as the guest lays it out in its memory: control word,
/// length of the transfer and guest address of the transfer, each in
/// big-endian order.
#[derive(Debug, Copy, Clone)]
pub struct DmaAccess {
    pub control: u32,
    pub length: u32,
    pub address: u64,
}

impl DmaAccess {
    /// Bytes of a descriptor in guest memory.
    pub const SIZE: usize = 16;

    /// The descriptor that `bytes` spell.
    pub open spec fn parse(bytes: Seq<u8>) -> DmaAccess
        recommends
            bytes.len() == Self::SIZE,
    {
        DmaAccess {
            control: from_be32(bytes) as u32,
            length: from_be32(bytes.skip(4)) as u32,
            address: from_be64(bytes.skip(8)) as u64,
        }
    }

    /// Reads a descriptor from exactly [`DmaAccess::SIZE`] bytes.
    pub fn read_from(bytes: &[u8]) -> (access: Option<DmaAccess>)
        ensures
            access is Some <==> bytes@.len() == Self::SIZE,
            access is Some ==> access->0 == Self::parse(bytes@),
    {
        if bytes.len() != Self::SIZE {
            return None;
        }
        let control = u32_from_be([bytes[0], bytes[1], bytes[2], bytes[3]]);
        let length = u32_from_be([bytes[4], bytes[5], bytes[6], bytes[7]]);
        let address = u64_from_be(
            [
                bytes[8],
                bytes[9],
                bytes[10],
                bytes[11],
                bytes[12],
                bytes[13],
                bytes[14],
                bytes[15],
            ],
        );
        Some(DmaAccess { control, length, address })
    }
}

/// Head of the file directory.
#[derive(Debug, Copy, Clone)]
pub struct FileDirFiles {
    /// Number of entries
    pub count: u32,
    // ...followed by `count` FileDirFile entries
}

impl FileDirFiles {
    /// Bytes of the head.
    pub const SIZE: usize = 4;

    /// The head as the guest reads it: the count in big-endian order.
    pub open spec fn bytes(self) -> Seq<u8> {
        be32(self.count)
    }

    pub fn as_bytes(&self) -> (bytes: [u8; 4])
        ensures
            bytes@ == self.bytes(),
    {
        u32_to_be(self.count)
    }
}

/// Individual file entry, exactly 64 bytes total
#[derive(Debug, Copy, Clone)]
pub struct FileDirFile {
    /// Size of referenced fw_cfg item
    pub size: u32,
    /// Selector key of fw_cfg item
    pub select: u16,
    /// Reserved field for alignment
    pub reserved: u16,
    /// fw_cfg item name, NUL-terminated ASCII (56 bytes)
    pub name: [u8; 56],
}

impl FileDirFile {
    /// Bytes of an entry.
    pub const SIZE: usize = 64;

    /// Bytes of the name field.
    pub const NAME_SIZE: usize = 56;

    /// The entry as the guest reads it: size, selector and reserved field
    /// in big-endian order, then the name field.
    pub open spec fn bytes(self) -> Seq<u8> {
        be32(self.size) + be16(self.select) + be16(self.reserved) + self.name@
    }

    pub fn as_bytes(&self) -> (bytes: Vec<u8>)
        ensures
            bytes@ == self.bytes(),
            bytes@.len() == Self::SIZE,
    {
        let size = u32_to_be(self.size);
        let select = u16_to_be(self.select);
        let reserved = u16_to_be(self.reserved);
        let mut bytes: Vec<u8> = Vec::new();
        append_bytes(&mut bytes, size.as_slice());
        append_bytes(&mut bytes, select.as_slice());
        append_bytes(&mut bytes, reserved.as_slice());
        append_bytes(&mut bytes, self.name.as_slice());
        bytes
    }
}

/// Appends `bytes` to `buf`.
pub fn append_bytes(buf: &mut Vec<u8>, bytes: &[u8])
    ensures
        final(buf)@ == old(buf)@ + bytes@,
{
    let mut index: usize = 0;
    while index < bytes.len()
        invariant
            index <= bytes@.len(),
            buf@ == old(buf)@ + bytes@.take(index as int),
        decreases bytes@.len() - index,
    {
        buf.push(bytes[index]);
        index += 1;
    }
}

} // verus!
