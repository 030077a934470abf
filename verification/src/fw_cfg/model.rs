//! The firmware configuration device as a mathematical value.
//!
//! The guest selects an item by a 16-bit key and reads its bytes through
//! the data register, or has them moved by DMA. The device itself never
//! touches guest memory: it says what is to be read or written there, and
//! is told how that went.

use vstd::prelude::*;
use crate::chipset_device::{IoError, IoResult, MmioRegion, PortRegion};
use crate::endian::{be32, from_be16, from_be32, from_le16, le32};
use crate::fw_cfg::defs::{control_selector, DmaAccess, DmaControl, Selector};
use crate::fw_cfg::file_dir::{all_valid, file_dir, FileModel, MAX_FILES};
use crate::fw_cfg::FwCfgRegisterLayout;

verus! {

/// The selector after power-on. It names no item.
pub const INITIAL_SELECTOR: u16 = 0xFFFF;

/// The features that the device reports: the selector and data registers,
/// and DMA.
pub const ID_FEATURES: u32 = 0x3;

/// The control word that the device stores in a descriptor when the
/// operation has failed.
pub const DMA_CONTROL_ERROR: u32 = 0x1;

/// The highest base at which the registers of the memory-mapped layout
/// still end below the top of the address space.
pub const MAX_MMIO_BASE: u64 = 0xFFFF_FFFF_FFFF_FFE8;

/// The signature item: the ASCII letters `QEMU`.
pub open spec fn signature() -> Seq<u8> {
    seq![0x51u8, 0x45u8, 0x4Du8, 0x55u8]
}

/// The bytes of the item that `selector` names. The signature, the feature
/// bitmap and the file directory have fixed selectors. The files follow
/// from [`Selector::BASE_FILE`] in the order of their registration. Every
/// other selector names an empty item.
pub open spec fn item_content(files: Seq<FileModel>, selector: u16) -> Seq<u8> {
    if selector == Selector::SIGNATURE {
        signature()
    } else if selector == Selector::ID {
        le32(ID_FEATURES)
    } else if selector == Selector::FILE_DIR {
        file_dir(files)
    } else if Selector::BASE_FILE <= selector < Selector::BASE_ARCH_LOCAL && selector
        - Selector::BASE_FILE < files.len() {
        files[selector - Selector::BASE_FILE].bytes()
    } else {
        Seq::empty()
    }
}

/// A register of the device.
pub enum Register {
    Selector,
    Data,
    DmaHi,
    DmaLo,
}

/// The register at an I/O port of the fixed layout.
pub open spec fn pio_register(port: u16) -> Option<Register> {
    if port == 0x510 {
        Some(Register::Selector)
    } else if port == 0x511 {
        Some(Register::Data)
    } else if port == 0x514 {
        Some(Register::DmaHi)
    } else if port == 0x518 {
        Some(Register::DmaLo)
    } else {
        None
    }
}

/// The register at a guest physical address of the memory-mapped layout.
pub open spec fn mmio_register(base: u64, addr: u64) -> Option<Register> {
    if addr == base + 0 {
        Some(Register::Data)
    } else if addr == base + 8 {
        Some(Register::Selector)
    } else if addr == base + 16 {
        Some(Register::DmaHi)
    } else if addr == base + 20 {
        Some(Register::DmaLo)
    } else {
        None
    }
}

/// Where a DMA operation stands.
#[derive(Debug, Copy, Clone)]
pub enum DmaPhase {
    /// No operation is in flight.
    Idle,
    /// The descriptor at `gpa` is to be read.
    Descriptor { gpa: u64 },
    /// `count` bytes of the item, from the cursor on, are to be written to
    /// guest memory at `address`.
    ToGuest { gpa: u64, address: u64, count: usize },
    /// `count` bytes of guest memory at `address` are to replace the bytes
    /// of the item from the cursor on.
    FromGuest { gpa: u64, address: u64, count: usize },
    /// `control` is to be stored in the descriptor at `gpa`.
    Status { gpa: u64, control: u32 },
}

/// What the device needs done in guest memory.
#[derive(Debug)]
pub enum DmaAction {
    /// Nothing.
    Idle,
    /// Read `len` bytes at `address` and answer with them.
    ReadGuest { address: u64, len: usize },
    /// Write `data` at `address` and answer that it is done.
    WriteGuest { address: u64, data: Vec<u8> },
}

/// What the device needs done in guest memory, as a mathematical value.
pub enum DmaRequest {
    /// Nothing.
    Idle,
    /// `len` bytes at `address` are to be read.
    ReadGuest { address: u64, len: nat },
    /// `data` is to be written at `address`.
    WriteGuest { address: u64, data: Seq<u8> },
}

impl View for DmaAction {
    type V = DmaRequest;

    open spec fn view(&self) -> DmaRequest {
        match self {
            DmaAction::Idle => DmaRequest::Idle,
            DmaAction::ReadGuest { address, len } => DmaRequest::ReadGuest {
                address: *address,
                len: *len as nat,
            },
            DmaAction::WriteGuest { address, data } => DmaRequest::WriteGuest {
                address: *address,
                data: data@,
            },
        }
    }
}

/// How an access to guest memory went.
#[derive(Debug)]
pub enum DmaReply {
    /// The bytes that were read.
    Data(Vec<u8>),
    /// The bytes were written.
    Done,
    /// The guest memory could not be accessed.
    Fault,
}

/// The device as a mathematical value.
pub struct FwCfgModel {
    /// Where the registers are.
    pub register_layout: FwCfgRegisterLayout,
    /// The registered files, in the order of their registration.
    pub files: Seq<FileModel>,
    /// The selector that the guest wrote last.
    pub selector: u16,
    /// The bytes of the selected item.
    pub data: Seq<u8>,
    /// The read cursor: how many bytes of the item are behind it.
    pub offset: nat,
    /// High half of the guest address of the DMA descriptor.
    pub dma_hi: u32,
    /// Low half of the guest address of the DMA descriptor.
    pub dma_lo: u32,
    /// The DMA operation in flight.
    pub dma: DmaPhase,
}

impl FwCfgModel {
    /// The device after power-on.
    pub open spec fn power_on(
        register_layout: FwCfgRegisterLayout,
        files: Seq<FileModel>,
    ) -> FwCfgModel {
        FwCfgModel {
            register_layout,
            files,
            selector: INITIAL_SELECTOR,
            data: Seq::empty(),
            offset: 0,
            dma_hi: 0,
            dma_lo: 0,
            dma: DmaPhase::Idle,
        }
    }

    /// What holds of the device in every state that it reaches: the files
    /// are registered validly, the registers lie within the address space,
    /// the item has the length that it was registered with, the cursor is
    /// within the item, and so is a transfer in flight.
    pub open spec fn wf(self) -> bool {
        &&& self.files.len() <= MAX_FILES
        &&& all_valid(self.files)
        &&& self.register_layout matches FwCfgRegisterLayout::Mmio(base) ==> base <= MAX_MMIO_BASE
        &&& self.data.len() == item_content(self.files, self.selector).len()
        &&& self.offset <= self.data.len()
        &&& match self.dma {
            DmaPhase::ToGuest { count, .. } => 0 < count <= self.remaining(),
            DmaPhase::FromGuest { count, .. } => 0 < count <= self.remaining(),
            _ => true,
        }
    }

    /// How many bytes of the item lie before the cursor.
    pub open spec fn remaining(self) -> nat {
        (self.data.len() - self.offset) as nat
    }

    /// The device after power-on, with the files and the layout that it was
    /// built with.
    pub open spec fn reset(self) -> FwCfgModel {
        Self::power_on(self.register_layout, self.files)
    }

    /// The device after `selector` was written. The cursor returns to the
    /// start. The bytes of the item are kept where the selector is the one
    /// that was selected already, and are those of the new item otherwise.
    /// A DMA operation in flight is given up.
    pub open spec fn write_selector(self, selector: u16) -> FwCfgModel {
        FwCfgModel {
            selector,
            data: if selector == self.selector {
                self.data
            } else {
                item_content(self.files, selector)
            },
            offset: 0,
            dma: DmaPhase::Idle,
            ..self
        }
    }

    /// How many bytes a read of `width` bytes copies: as many as are asked
    /// for, or as are left of the item.
    pub open spec fn read_count(self, width: nat) -> nat {
        if width <= self.remaining() {
            width
        } else {
            self.remaining()
        }
    }

    /// The bytes that a read of `width` bytes copies.
    pub open spec fn read_bytes(self, width: nat) -> Seq<u8> {
        self.data.subrange(self.offset as int, (self.offset + self.read_count(width)) as int)
    }

    /// The device after a read of `width` bytes: the cursor has moved past
    /// the bytes that were copied. A DMA operation in flight is given up.
    pub open spec fn read_data(self, width: nat) -> FwCfgModel {
        FwCfgModel { offset: self.offset + self.read_count(width), dma: DmaPhase::Idle, ..self }
    }

    /// The device after the high half of the descriptor's address was
    /// written.
    pub open spec fn write_dma_hi(self, value: u32) -> FwCfgModel {
        FwCfgModel { dma_hi: value, ..self }
    }

    /// The device after the low half of the descriptor's address was
    /// written: a DMA operation begins with the descriptor at the address
    /// that the two halves spell.
    pub open spec fn write_dma_lo(self, value: u32) -> FwCfgModel {
        FwCfgModel {
            dma_lo: value,
            dma: DmaPhase::Descriptor { gpa: descriptor_address(self.dma_hi, value) },
            ..self
        }
    }

    /// The result of a write of `bytes` to `register`, and the device after
    /// it. The selector takes two bytes, in big-endian order where
    /// `big_endian`. The halves of the descriptor's address take four bytes
    /// each, always in big-endian order, and the high half also takes both
    /// at once. A write to the data register is accepted and ignored.
    pub open spec fn write(self, register: Register, bytes: Seq<u8>, big_endian: bool) -> (
        IoResult,
        FwCfgModel,
    ) {
        match register {
            Register::Selector => if bytes.len() == 2 {
                (
                    Ok(()),
                    self.write_selector(
                        (if big_endian {
                            from_be16(bytes)
                        } else {
                            from_le16(bytes)
                        }) as u16,
                    ),
                )
            } else {
                (Err(IoError::InvalidAccessSize), self)
            },
            Register::Data => (Ok(()), self),
            Register::DmaHi => if bytes.len() == 4 {
                (Ok(()), self.write_dma_hi(from_be32(bytes) as u32))
            } else if bytes.len() == 8 {
                (
                    Ok(()),
                    self.write_dma_hi(from_be32(bytes) as u32).write_dma_lo(
                        from_be32(bytes.skip(4)) as u32,
                    ),
                )
            } else {
                (Err(IoError::InvalidAccessSize), self)
            },
            Register::DmaLo => if bytes.len() == 4 {
                (Ok(()), self.write_dma_lo(from_be32(bytes) as u32))
            } else {
                (Err(IoError::InvalidAccessSize), self)
            },
        }
    }

    /// The result of a read of `width` bytes from `register`. Only the data
    /// register can be read; where `single_byte`, only one byte at a time.
    pub open spec fn read_result(register: Register, width: nat, single_byte: bool) -> IoResult {
        match register {
            Register::Data => if single_byte && width != 1 {
                Err(IoError::InvalidAccessSize)
            } else {
                Ok(())
            },
            _ => Err(IoError::InvalidRegister),
        }
    }

    /// The register that a port access reaches, if the device has the port
    /// layout and the port is one of its registers.
    pub open spec fn pio_target(self, port: u16) -> Option<Register> {
        match self.register_layout {
            FwCfgRegisterLayout::IoPort => pio_register(port),
            FwCfgRegisterLayout::Mmio(_) => None,
        }
    }

    /// The register that a memory access reaches, if the device has the
    /// memory-mapped layout and the address is one of its registers.
    pub open spec fn mmio_target(self, addr: u64) -> Option<Register> {
        match self.register_layout {
            FwCfgRegisterLayout::IoPort => None,
            FwCfgRegisterLayout::Mmio(base) => mmio_register(base, addr),
        }
    }

    /// The result of a read of `width` bytes that reaches `target`.
    pub open spec fn read_outcome(target: Option<Register>, width: nat, single_byte: bool)
        -> IoResult {
        match target {
            Some(register) => Self::read_result(register, width, single_byte),
            None => Err(IoError::InvalidRegister),
        }
    }

    /// The device after a read of `width` bytes that reaches `target`.
    pub open spec fn after_read(self, target: Option<Register>, width: nat, single_byte: bool)
        -> FwCfgModel {
        if Self::read_outcome(target, width, single_byte) is Ok {
            self.read_data(width)
        } else {
            self
        }
    }

    /// The bytes that a read of `width` bytes that reaches `target` copies.
    pub open spec fn read_copy(self, target: Option<Register>, width: nat, single_byte: bool)
        -> Seq<u8> {
        if Self::read_outcome(target, width, single_byte) is Ok {
            self.read_bytes(width)
        } else {
            Seq::empty()
        }
    }

    /// The result of a write that reaches `target`, and the device after
    /// it.
    pub open spec fn write_outcome(self, target: Option<Register>, bytes: Seq<u8>, big_endian: bool)
        -> (IoResult, FwCfgModel) {
        match target {
            Some(register) => self.write(register, bytes, big_endian),
            None => (Err(IoError::InvalidRegister), self),
        }
    }

    /// The transfer that a descriptor asks for, once its selector was
    /// taken: its count is the length that the descriptor names, or what is
    /// left of the item. Reading comes before writing, and writing before
    /// skipping. Where nothing is to be moved the operation is complete.
    pub open spec fn dma_begin(self, gpa: u64, access: DmaAccess) -> FwCfgModel {
        let control = DmaControl(access.control);
        let selected = if control.select() {
            self.write_selector(control_selector(access.control))
        } else {
            self
        };
        let count = selected.read_count(access.length as nat) as usize;
        let done = DmaPhase::Status { gpa, control: 0 };
        if control.read() {
            FwCfgModel {
                dma: if count > 0 {
                    DmaPhase::ToGuest { gpa, address: access.address, count }
                } else {
                    done
                },
                ..selected
            }
        } else if control.write() {
            FwCfgModel {
                dma: if count > 0 {
                    DmaPhase::FromGuest { gpa, address: access.address, count }
                } else {
                    done
                },
                ..selected
            }
        } else if control.skip() {
            FwCfgModel { offset: selected.offset + count as nat, dma: done, ..selected }
        } else {
            FwCfgModel { dma: done, ..selected }
        }
    }

    /// What the device needs done in guest memory: the descriptor is read,
    /// the bytes of a transfer are written or read, and the control word is
    /// written back into the descriptor, in big-endian order.
    pub open spec fn dma_request(self) -> DmaRequest {
        match self.dma {
            DmaPhase::Idle => DmaRequest::Idle,
            DmaPhase::Descriptor { gpa } => DmaRequest::ReadGuest {
                address: gpa,
                len: DmaAccess::SIZE as nat,
            },
            DmaPhase::ToGuest { address, count, .. } => DmaRequest::WriteGuest {
                address,
                data: self.data.subrange(self.offset as int, self.offset + count),
            },
            DmaPhase::FromGuest { address, count, .. } => DmaRequest::ReadGuest {
                address,
                len: count as nat,
            },
            DmaPhase::Status { gpa, control } => DmaRequest::WriteGuest {
                address: gpa,
                data: be32(control),
            },
        }
    }

    /// The device after it was told how the access to guest memory went.
    ///
    /// A descriptor that was read starts its transfer; one that could not
    /// be read ends the operation. A transfer that succeeded moves the
    /// cursor past its bytes and completes with a control word of 0; one
    /// that failed moves nothing and completes with the error bit. Storing
    /// the control word ends the operation, whether it succeeded or not.
    pub open spec fn dma_reply(self, reply: DmaReply) -> FwCfgModel {
        match self.dma {
            DmaPhase::Idle => self,
            DmaPhase::Descriptor { gpa } => match reply {
                DmaReply::Data(bytes) if bytes@.len() == DmaAccess::SIZE => self.dma_begin(
                    gpa,
                    DmaAccess::parse(bytes@),
                ),
                _ => FwCfgModel { dma: DmaPhase::Idle, ..self },
            },
            DmaPhase::ToGuest { gpa, count, .. } => match reply {
                DmaReply::Done => FwCfgModel {
                    offset: self.offset + count as nat,
                    dma: DmaPhase::Status { gpa, control: 0 },
                    ..self
                },
                _ => FwCfgModel {
                    dma: DmaPhase::Status { gpa, control: DMA_CONTROL_ERROR },
                    ..self
                },
            },
            DmaPhase::FromGuest { gpa, count, .. } => match reply {
                DmaReply::Data(bytes) if bytes@.len() == count => FwCfgModel {
                    data: self.data.take(self.offset as int) + bytes@ + self.data.skip(
                        self.offset + count,
                    ),
                    offset: self.offset + count as nat,
                    dma: DmaPhase::Status { gpa, control: 0 },
                    ..self
                },
                _ => FwCfgModel {
                    dma: DmaPhase::Status { gpa, control: DMA_CONTROL_ERROR },
                    ..self
                },
            },
            DmaPhase::Status { .. } => FwCfgModel { dma: DmaPhase::Idle, ..self },
        }
    }
}

/// Whether `regions` are the port ranges that a device with `layout`
/// claims: selector and data, then the DMA address, for the port layout, and
/// none for the memory-mapped one.
pub open spec fn claims_ports(layout: FwCfgRegisterLayout, regions: Seq<PortRegion>) -> bool {
    match layout {
        FwCfgRegisterLayout::IoPort => {
            &&& regions.len() == 2
            &&& regions[0].name@ == "selector+data"@
            &&& regions[0].start == 0x510
            &&& regions[0].end == 0x511
            &&& regions[1].name@ == "dma"@
            &&& regions[1].start == 0x514
            &&& regions[1].end == 0x51b
        },
        FwCfgRegisterLayout::Mmio(_) => regions.len() == 0,
    }
}

/// Whether `regions` are the address ranges that a device with `layout`
/// claims: selector, data and DMA address for the memory-mapped layout, and
/// none for the port layout.
pub open spec fn claims_addresses(layout: FwCfgRegisterLayout, regions: Seq<MmioRegion>) -> bool {
    match layout {
        FwCfgRegisterLayout::IoPort => regions.len() == 0,
        FwCfgRegisterLayout::Mmio(base) => {
            &&& regions.len() == 3
            &&& regions[0].name@ == "selector"@
            &&& regions[0].start == base + 8
            &&& regions[0].end == base + 9
            &&& regions[1].name@ == "data"@
            &&& regions[1].start == base + 0
            &&& regions[1].end == base + 7
            &&& regions[2].name@ == "dma"@
            &&& regions[2].start == base + 16
            &&& regions[2].end == base + 23
        },
    }
}

/// The guest address that the two halves of the DMA address register spell.
pub open spec fn descriptor_address(hi: u32, lo: u32) -> u64 {
    (hi * 0x1_0000_0000 + lo) as u64
}

} // verus!
