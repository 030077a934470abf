//! The firmware configuration device.

pub mod defs;
pub mod e820;
pub mod file_dir;
pub mod model;
pub mod proofs;
pub mod resolver;

use vstd::prelude::*;
use vstd::string::StringExecFns;
use vstd::utf8::encode_utf8;
use crate::chipset_device::{
    ChangeDeviceState, ChipsetDevice, IoError, IoResult, MmioIntercept, MmioRegion, PortIoIntercept,
    PortRegion,
};
use crate::endian::{u32_from_be, u32_to_be, u32_to_le};
use crate::fw_cfg::defs::{
    append_bytes, DmaAccess, DmaControl, IdBitmap, MmioRegister, PioRegisters, Selector,
};
use crate::fw_cfg::e820::{e820_table, gen_e820};
use crate::fw_cfg::file_dir::{
    all_valid, check_files, file_model, file_models, first_invalid, gen_file_dir, FileModel,
    MAX_FILES,
};
use crate::fw_cfg::model::{
    claims_addresses, claims_ports, item_content, DmaAction, DmaPhase, DmaReply, FwCfgModel,
    Register, DMA_CONTROL_ERROR, INITIAL_SELECTOR, MAX_MMIO_BASE,
};
use crate::memory_layout::MemoryLayout;
use crate::save_restore::{NoSavedState, RestoreError, SaveError, SaveRestore};

verus! {

/// The base address for the `fw_cfg` device, either an MMIO address or an IO
/// port.
#[derive(Debug, Copy, Clone, PartialEq, Eq, Structural)]
pub enum FwCfgRegisterLayout {
    /// Fixed x86 IO ports.
    ///
    /// - Selector: 0x510
    /// - Data: 0x511
    /// - DMA: 0x514
    IoPort,
    /// Relocatable MMIO base address.
    ///
    /// - Selector: base + 8 (2 bytes)
    /// - Data: base + 0 (8 bytes)
    /// - DMA: base + 16 (8 bytes)
    Mmio(u64),
}

/// A file of the host, as it was found when it was registered.
#[derive(Debug)]
pub struct HostFile {
    /// The length that the file's metadata reports, or `None` where the
    /// query failed.
    pub len: Option<u64>,
    /// The bytes of the file, or `None` where they could not be read.
    pub contents: Option<Vec<u8>>,
}

/// File registered with the `fw_cfg` device
#[derive(Debug)]
pub enum FwCfgFile {
    /// String
    String(String),
    /// Blob
    Vec(Vec<u8>),
    /// File (prefer this when registering large files)
    File(HostFile),
}

impl FwCfgFile {
    /// The length of the file as the directory lists it, or `None` where it
    /// is unknown.
    pub open spec fn size(&self) -> Option<nat> {
        match self {
            FwCfgFile::String(s) => Some(encode_utf8(s@).len()),
            FwCfgFile::Vec(v) => Some(v@.len()),
            FwCfgFile::File(file) => match file.len {
                Some(len) => Some(len as nat),
                None => None,
            },
        }
    }

    /// The bytes of the file, or `None` where they cannot be read.
    pub open spec fn content(&self) -> Option<Seq<u8>> {
        match self {
            FwCfgFile::String(s) => Some(encode_utf8(s@)),
            FwCfgFile::Vec(v) => Some(v@),
            FwCfgFile::File(file) => match file.contents {
                Some(contents) => Some(contents@),
                None => None,
            },
        }
    }
}

/// Error which may occur during `fw_cfg` device construction
#[derive(Debug)]
pub enum Error {
    /// The name of a file is not ASCII.
    FilenameNotAscii(String),
    /// The name of a file is longer than 55 bytes.
    FilenameTooLong(String),
    /// The length of a file of the host could not be found out.
    MetadataIo(String),
    /// A file is longer than a 32-bit number can say.
    FileTooBig(String),
}

/// How many files the device registers by itself.
pub const BUILTIN_FILES: usize = 2;

/// `fw_cfg` device static configuration data.
#[derive(Debug)]
pub struct FwCfgConfig {
    /// Register layout of the `fw_cfg` device
    pub register_layout: FwCfgRegisterLayout,
    /// The VM's memory layout
    pub mem_layout: MemoryLayout,
    /// The files to register behind those of the device itself, in this
    /// order.
    pub files: Vec<(String, FwCfgFile)>,
}

/// The memory map as a registered file.
pub open spec fn e820_file(mem_layout: MemoryLayout) -> FileModel {
    FileModel {
        name: "etc/e820"@,
        size: Some(e820_table(mem_layout.ram@).len()),
        content: Some(e820_table(mem_layout.ram@)),
    }
}

/// The boot menu switch as a registered file: one byte, which is 1.
pub open spec fn boot_menu_file() -> FileModel {
    FileModel { name: "etc/show-boot-menu"@, size: Some(1nat), content: Some(seq![1u8]) }
}

/// The file table of a device that is built with `mem_layout` and `files`:
/// the memory map, the boot menu switch, then `files` in their order.
pub open spec fn registered_files(
    mem_layout: MemoryLayout,
    files: Seq<(String, FwCfgFile)>,
) -> Seq<FileModel> {
    Seq::new(
        files.len() + BUILTIN_FILES as nat,
        |i: int|
            if i == 0 {
                e820_file(mem_layout)
            } else if i == 1 {
                boot_menu_file()
            } else {
                file_model(files[i - BUILTIN_FILES])
            },
    )
}

/// An implementation of the QEMU firmware configuration device.
pub struct FwCfg {
    // Static Config
    register_layout: FwCfgRegisterLayout,
    pio_regions: Vec<PortRegion>,
    mmio_regions: Vec<MmioRegion>,
    files: Vec<(String, FwCfgFile)>,
    // Runtime book-keeping
    buf: Vec<u8>,
    buf_valid: bool,
    // Volatile state
    selector: Selector,
    data_offset: usize,
    dma_lo: u32,
    dma_hi: u32,
    dma: DmaPhase,
}

impl View for FwCfg {
    type V = FwCfgModel;

    closed spec fn view(&self) -> FwCfgModel {
        FwCfgModel {
            register_layout: self.register_layout,
            files: file_models(self.files@),
            selector: self.selector.0,
            data: if self.buf_valid {
                self.buf@
            } else {
                item_content(file_models(self.files@), self.selector.0)
            },
            offset: self.data_offset as nat,
            dma_hi: self.dma_hi,
            dma_lo: self.dma_lo,
            dma: self.dma,
        }
    }
}

/// The bytes of `buf` from `from` on, `count` of them.
fn copy_range(buf: &Vec<u8>, from: usize, count: usize) -> (out: Vec<u8>)
    requires
        from + count <= buf.len(),
    ensures
        out@ == buf@.subrange(from as int, from + count),
{
    let mut out: Vec<u8> = Vec::new();
    let mut index: usize = 0;
    while index < count
        invariant
            index <= count,
            from + count <= buf.len(),
            out@ == buf@.subrange(from as int, from + index),
        decreases count - index,
    {
        out.push(buf[from + index]);
        index += 1;
    }
    out
}

/// `buf` with `bytes` in place of the bytes from `at` on.
fn splice(buf: &Vec<u8>, at: usize, bytes: &Vec<u8>) -> (out: Vec<u8>)
    requires
        at + bytes.len() <= buf.len(),
    ensures
        out@ == buf@.take(at as int) + bytes@ + buf@.skip(at + bytes@.len()),
{
    let mut out = copy_range(buf, 0, at);
    append_bytes(&mut out, bytes.as_slice());
    let rest = copy_range(buf, at + bytes.len(), buf.len() - (at + bytes.len()));
    append_bytes(&mut out, rest.as_slice());
    out
}

/// The port ranges that a device with `layout` claims.
fn port_regions(layout: FwCfgRegisterLayout) -> (regions: Vec<PortRegion>)
    ensures
        claims_ports(layout, regions@),
{
    let mut regions: Vec<PortRegion> = Vec::new();
    match layout {
        FwCfgRegisterLayout::IoPort => {
            regions.push(
                PortRegion {
                    name: "selector+data",
                    start: PioRegisters::SELECTOR,
                    end: PioRegisters::DATA,
                },
            );
            regions.push(
                PortRegion {
                    name: "dma",
                    start: PioRegisters::DMA_HI,
                    end: PioRegisters::DMA_HI + 7,
                },
            );
        },
        FwCfgRegisterLayout::Mmio(_) => {},
    }
    regions
}

/// The address ranges that a device with `layout` claims.
fn address_regions(layout: FwCfgRegisterLayout) -> (regions: Vec<MmioRegion>)
    requires
        layout matches FwCfgRegisterLayout::Mmio(base) ==> base <= MAX_MMIO_BASE,
    ensures
        claims_addresses(layout, regions@),
{
    let mut regions: Vec<MmioRegion> = Vec::new();
    match layout {
        FwCfgRegisterLayout::IoPort => {},
        FwCfgRegisterLayout::Mmio(base) => {
            regions.push(
                MmioRegion {
                    name: "selector",
                    start: base + MmioRegister::SELECTOR,
                    end: base + MmioRegister::SELECTOR + 1,
                },
            );
            regions.push(
                MmioRegion {
                    name: "data",
                    start: base + MmioRegister::DATA,
                    end: base + MmioRegister::DATA + 7,
                },
            );
            regions.push(
                MmioRegion {
                    name: "dma",
                    start: base + MmioRegister::DMA_HI,
                    end: base + MmioRegister::DMA_HI + 7,
                },
            );
        },
    }
    regions
}

/// The file table: the files of the device itself, then `extra`.
fn register_files(mem_layout: &MemoryLayout, extra: Vec<(String, FwCfgFile)>) -> (files: Vec<
    (String, FwCfgFile),
>)
    ensures
        file_models(files@) == registered_files(*mem_layout, extra@),
        files@.len() == extra@.len() + BUILTIN_FILES,
{
    let mut extra = extra;
    let mut files: Vec<(String, FwCfgFile)> = Vec::new();
    let e820 = (String::from_str("etc/e820"), FwCfgFile::Vec(gen_e820(mem_layout)));
    let mut enabled: Vec<u8> = Vec::new();
    enabled.push(1);
    let boot_menu = (String::from_str("etc/show-boot-menu"), FwCfgFile::Vec(enabled));
    assert(boot_menu.1.content() == Some(seq![1u8]));
    files.push(e820);
    files.push(boot_menu);
    files.append(&mut extra);
    files
}

impl FwCfg {
    #[verifier::type_invariant]
    spec fn inv(self) -> bool {
        &&& self.files@.len() <= MAX_FILES
        &&& all_valid(file_models(self.files@))
        &&& self.register_layout matches FwCfgRegisterLayout::Mmio(base) ==> base <= MAX_MMIO_BASE
        &&& claims_ports(self.register_layout, self.pio_regions@)
        &&& claims_addresses(self.register_layout, self.mmio_regions@)
        &&& self.buf_valid ==> self.buf@.len() == item_content(
            file_models(self.files@),
            self.selector.0,
        ).len()
        &&& self.buf_valid ==> self.data_offset <= self.buf@.len()
        &&& !self.buf_valid ==> self.data_offset == 0
        &&& match self.dma {
            DmaPhase::ToGuest { count, .. } => {
                &&& self.buf_valid
                &&& 0 < count
                &&& self.data_offset + count <= self.buf@.len()
            },
            DmaPhase::FromGuest { count, .. } => {
                &&& self.buf_valid
                &&& 0 < count
                &&& self.data_offset + count <= self.buf@.len()
            },
            _ => true,
        }
    }

    /// Create the `fw_cfg` device.
    ///
    /// The device registers the memory map and the boot menu switch, then
    /// the files of `config`. It is built if every file can be registered;
    /// otherwise the error names the first file that cannot.
    pub fn new(config: FwCfgConfig) -> (out: Result<FwCfg, Error>)
        requires
            config.register_layout matches FwCfgRegisterLayout::Mmio(base) ==> base
                <= MAX_MMIO_BASE,
            config.files@.len() + BUILTIN_FILES <= MAX_FILES,
        ensures
            out is Ok <==> all_valid(registered_files(config.mem_layout, config.files@)),
            out matches Ok(device) ==> {
                &&& device@ == FwCfgModel::power_on(
                    config.register_layout,
                    registered_files(config.mem_layout, config.files@),
                )
                &&& device@.wf()
            },
            out matches Err(e) ==> exists|i: int|
                {
                    &&& first_invalid(registered_files(config.mem_layout, config.files@), i)
                    &&& e.reports(
                        #[trigger] registered_files(config.mem_layout, config.files@)[i],
                    )
                },
    {
        let FwCfgConfig { register_layout, mem_layout, files: extra } = config;
        let pio_regions = port_regions(register_layout);
        let mmio_regions = address_regions(register_layout);
        let files = register_files(&mem_layout, extra);

        match check_files(files.as_slice()) {
            Ok(()) => {},
            Err(e) => {
                return Err(e);
            },
        }

        Ok(
            FwCfg {
                register_layout,
                pio_regions,
                mmio_regions,
                files,
                buf: Vec::new(),
                buf_valid: false,
                selector: Selector(INITIAL_SELECTOR),
                data_offset: 0,
                dma_lo: 0,
                dma_hi: 0,
                dma: DmaPhase::Idle,
            },
        )
    }

    /// Fills the buffer with the bytes of the selected item, unless it
    /// holds them already. The buffer stays invalid where the item is a
    /// file that is not registered or cannot be read; the item is then
    /// empty.
    fn materialize(&mut self)
        ensures
            final(self)@ == old(self)@,
            !final(self).buf_valid ==> old(self)@.data.len() == 0,
    {
        proof {
            use_type_invariant(&*self);
        }
        if self.buf_valid {
            return ;
        }
        let mut buf: Vec<u8> = Vec::new();
        let mut valid = true;
        let selector = self.selector.0;
        if selector == Selector::SIGNATURE {
            let signature: [u8; 4] = [0x51, 0x45, 0x4D, 0x55];
            append_bytes(&mut buf, signature.as_slice());
        } else if selector == Selector::ID {
            let id = IdBitmap::new().with_trad(true).with_dma(true).into_bits();
            assert(id == 0x3) by (bit_vector)
                requires
                    id == (0u32 | (1u32 << 0u32)) | (1u32 << 1u32),
            ;
            let bytes = u32_to_le(id);
            append_bytes(&mut buf, bytes.as_slice());
        } else if selector == Selector::FILE_DIR {
            match gen_file_dir(&mut buf, self.files.as_slice()) {
                Ok(()) => {},
                Err(_) => {
                    valid = false;
                },
            }
        } else if selector < Selector::BASE_FILE || selector >= Selector::BASE_ARCH_LOCAL {
            // A legacy selector: accepted, and empty.
        } else {
            let index = (selector - Selector::BASE_FILE) as usize;
            if index < self.files.len() {
                match &self.files[index].1 {
                    FwCfgFile::String(s) => append_bytes(&mut buf, s.as_str().as_bytes()),
                    FwCfgFile::Vec(v) => append_bytes(&mut buf, v.as_slice()),
                    FwCfgFile::File(file) => match &file.contents {
                        Some(contents) => append_bytes(&mut buf, contents.as_slice()),
                        None => {
                            valid = false;
                        },
                    },
                }
            } else {
                valid = false;
            }
        }
        self.buf = buf;
        self.buf_valid = valid;
    }

    fn write_selector(&mut self, data: u16) -> (out: IoResult)
        ensures
            out == IoResult::Ok(()),
            final(self)@ == old(self)@.write_selector(data),
    {
        proof {
            use_type_invariant(&*self);
        }
        let new_selector = Selector(data);
        let old_selector = self.selector;
        self.dma = DmaPhase::Idle;
        self.data_offset = 0;
        if new_selector.0 != old_selector.0 {
            self.buf_valid = false;
        }
        self.selector = new_selector;
        IoResult::Ok(())
    }

    fn read_data(&mut self, data: &mut [u8]) -> (out: IoResult)
        ensures
            out == IoResult::Ok(()),
            final(self)@ == old(self)@.read_data(old(data)@.len()),
            final(data)@ == old(self)@.read_bytes(old(data)@.len()) + old(data)@.skip(
                old(self)@.read_count(old(data)@.len()) as int,
            ),
    {
        self.materialize();
        proof {
            use_type_invariant(&*self);
        }
        self.dma = DmaPhase::Idle;
        let buf_remaining = if self.buf_valid {
            self.buf.len() - self.data_offset
        } else {
            0
        };
        let n = if buf_remaining < data.len() {
            buf_remaining
        } else {
            data.len()
        };
        let mut index: usize = 0;
        while index < n
            invariant
                index <= n,
                n <= data@.len(),
                data@.len() == old(data)@.len(),
                n > 0 ==> self.buf_valid && self.data_offset + n <= self.buf.len(),
                forall|i: int| 0 <= i < index ==> data@[i] == self.buf@[self.data_offset + i],
                forall|i: int| index <= i < data@.len() ==> data@[i] == old(data)@[i],
            decreases n - index,
        {
            data[index] = self.buf[self.data_offset + index];
            index += 1;
        }
        self.data_offset += n;
        IoResult::Ok(())
    }

    fn write_dma_hi(&mut self, val: &[u8]) -> (out: IoResult)
        ensures
            (out, final(self)@) == old(self)@.write(Register::DmaHi, val@, true),
    {
        proof {
            use_type_invariant(&*self);
        }
        if val.len() != 4 && val.len() != 8 {
            return IoResult::Err(IoError::InvalidAccessSize);
        }
        self.dma_hi = u32_from_be([val[0], val[1], val[2], val[3]]);
        if val.len() == 8 {
            let low = [val[4], val[5], val[6], val[7]];
            self.trigger_dma(u32_from_be(low));
        }
        IoResult::Ok(())
    }

    fn write_dma_lo(&mut self, val: &[u8]) -> (out: IoResult)
        ensures
            (out, final(self)@) == old(self)@.write(Register::DmaLo, val@, true),
    {
        if val.len() != 4 {
            return IoResult::Err(IoError::InvalidAccessSize);
        }
        self.trigger_dma(u32_from_be([val[0], val[1], val[2], val[3]]));
        IoResult::Ok(())
    }

    /// Latches the low half of the descriptor's address and begins the DMA
    /// operation.
    fn trigger_dma(&mut self, low: u32)
        ensures
            final(self)@ == old(self)@.write_dma_lo(low),
    {
        proof {
            use_type_invariant(&*self);
        }
        self.dma_lo = low;
        let gpa: u64 = (self.dma_hi as u64) * 0x1_0000_0000 + self.dma_lo as u64;
        self.dma = DmaPhase::Descriptor { gpa };
    }

    fn write_register(&mut self, register: Register, data: &[u8], big_endian: bool) -> (out:
        IoResult)
        ensures
            (out, final(self)@) == old(self)@.write(register, data@, big_endian),
    {
        match register {
            Register::Selector => {
                if data.len() != 2 {
                    return IoResult::Err(IoError::InvalidAccessSize);
                }
                let (high, low) = if big_endian {
                    (data[0], data[1])
                } else {
                    (data[1], data[0])
                };
                self.write_selector(high as u16 * 0x100 + low as u16)
            },
            Register::Data => {
                // Writing via the data register is deprecated.
                IoResult::Ok(())
            },
            Register::DmaHi => self.write_dma_hi(data),
            Register::DmaLo => self.write_dma_lo(data),
        }
    }

    fn read_register(&mut self, target: Option<Register>, data: &mut [u8], single_byte: bool) -> (out:
        IoResult)
        ensures
            out == FwCfgModel::read_outcome(target, old(data)@.len(), single_byte),
            final(self)@ == old(self)@.after_read(target, old(data)@.len(), single_byte),
            final(data)@ == old(self)@.read_copy(target, old(data)@.len(), single_byte) + old(
                data,
            )@.skip(old(self)@.read_copy(target, old(data)@.len(), single_byte).len() as int),
    {
        proof {
            use_type_invariant(&*self);
        }
        match target {
            Some(Register::Data) => {
                if single_byte && data.len() != 1 {
                    return IoResult::Err(IoError::InvalidAccessSize);
                }
                self.read_data(data)
            },
            // all other regs are write-only
            _ => {
                IoResult::Err(IoError::InvalidRegister)
            },
        }
    }

    fn pio_target(&self, io_port: u16) -> (target: Option<Register>)
        ensures
            target == self@.pio_target(io_port),
    {
        match self.register_layout {
            FwCfgRegisterLayout::IoPort => {
                if io_port == PioRegisters::SELECTOR {
                    Some(Register::Selector)
                } else if io_port == PioRegisters::DATA {
                    Some(Register::Data)
                } else if io_port == PioRegisters::DMA_HI {
                    Some(Register::DmaHi)
                } else if io_port == PioRegisters::DMA_LO {
                    Some(Register::DmaLo)
                } else {
                    None
                }
            },
            FwCfgRegisterLayout::Mmio(_) => None,
        }
    }

    fn mmio_target(&self, addr: u64) -> (target: Option<Register>)
        ensures
            target == self@.mmio_target(addr),
    {
        match self.register_layout {
            FwCfgRegisterLayout::IoPort => None,
            FwCfgRegisterLayout::Mmio(base) => {
                if addr < base {
                    return None;
                }
                let offset = addr - base;
                if offset == MmioRegister::DATA {
                    Some(Register::Data)
                } else if offset == MmioRegister::SELECTOR {
                    Some(Register::Selector)
                } else if offset == MmioRegister::DMA_HI {
                    Some(Register::DmaHi)
                } else if offset == MmioRegister::DMA_LO {
                    Some(Register::DmaLo)
                } else {
                    None
                }
            },
        }
    }

    /// What the device needs done in guest memory now. The host does it and
    /// answers with [`FwCfg::dma_reply`], until nothing is left to do.
    pub fn dma_action(&self) -> (action: DmaAction)
        ensures
            action@ == self@.dma_request(),
    {
        proof {
            use_type_invariant(self);
        }
        match self.dma {
            DmaPhase::Idle => DmaAction::Idle,
            DmaPhase::Descriptor { gpa } => DmaAction::ReadGuest {
                address: gpa,
                len: DmaAccess::SIZE,
            },
            DmaPhase::ToGuest { address, count, .. } => DmaAction::WriteGuest {
                address,
                data: copy_range(&self.buf, self.data_offset, count),
            },
            DmaPhase::FromGuest { address, count, .. } => DmaAction::ReadGuest {
                address,
                len: count,
            },
            DmaPhase::Status { gpa, control } => {
                let bytes = u32_to_be(control);
                let mut data: Vec<u8> = Vec::new();
                append_bytes(&mut data, bytes.as_slice());
                DmaAction::WriteGuest { address: gpa, data }
            },
        }
    }

    /// Takes the outcome of the access to guest memory that
    /// [`FwCfg::dma_action`] asked for, and moves the DMA operation on.
    pub fn dma_reply(&mut self, reply: DmaReply)
        ensures
            final(self)@ == old(self)@.dma_reply(reply),
            final(self)@.wf(),
    {
        proof {
            use_type_invariant(&*self);
        }
        let len = self.buf.len();
        match self.dma {
            DmaPhase::Idle => {},
            DmaPhase::Descriptor { gpa } => {
                self.dma = DmaPhase::Idle;
                match reply {
                    DmaReply::Data(bytes) => match DmaAccess::read_from(bytes.as_slice()) {
                        Some(access) => self.dma_begin(gpa, access),
                        None => {},
                    },
                    _ => {},
                }
            },
            DmaPhase::ToGuest { gpa, count, .. } => {
                self.dma = DmaPhase::Idle;
                match reply {
                    DmaReply::Done => {
                        self.data_offset += count;
                        self.dma = DmaPhase::Status { gpa, control: 0 };
                    },
                    _ => {
                        self.dma = DmaPhase::Status { gpa, control: DMA_CONTROL_ERROR };
                    },
                }
            },
            DmaPhase::FromGuest { gpa, count, .. } => {
                self.dma = DmaPhase::Idle;
                match reply {
                    DmaReply::Data(bytes) => {
                        if bytes.len() == count {
                            let buf = splice(&self.buf, self.data_offset, &bytes);
                            self.buf = buf;
                            self.data_offset += count;
                            self.dma = DmaPhase::Status { gpa, control: 0 };
                        } else {
                            self.dma = DmaPhase::Status { gpa, control: DMA_CONTROL_ERROR };
                        }
                    },
                    _ => {
                        self.dma = DmaPhase::Status { gpa, control: DMA_CONTROL_ERROR };
                    },
                }
            },
            DmaPhase::Status { .. } => {
                self.dma = DmaPhase::Idle;
            },
        }
        proof {
            use_type_invariant(&*self);
        }
    }

    /// Decides the transfer that a descriptor asks for.
    fn dma_begin(&mut self, gpa: u64, access: DmaAccess)
        ensures
            final(self)@ == old(self)@.dma_begin(gpa, access),
    {
        let control = DmaControl::from_bits(access.control);
        if control.select() {
            let _ = self.write_selector(control.selector().into_bits());
        }
        self.materialize();
        proof {
            use_type_invariant(&*self);
        }
        self.dma = DmaPhase::Idle;
        let remaining = if self.buf_valid {
            self.buf.len() - self.data_offset
        } else {
            0
        };
        let length = access.length as usize;
        let count = if length <= remaining {
            length
        } else {
            remaining
        };
        let done = DmaPhase::Status { gpa, control: 0 };
        if control.read() {
            if count > 0 {
                self.dma = DmaPhase::ToGuest { gpa, address: access.address, count };
            } else {
                self.dma = done;
            }
        } else if control.write() {
            if count > 0 {
                self.dma = DmaPhase::FromGuest { gpa, address: access.address, count };
            } else {
                self.dma = done;
            }
        } else if control.skip() {
            self.data_offset += count;
            self.dma = done;
        } else {
            self.dma = done;
        }
    }
}

impl ChangeDeviceState for FwCfg {
    fn start(&mut self)
        ensures
            final(self)@ == old(self)@,
    {
    }

    fn stop(&mut self)
        ensures
            final(self)@ == old(self)@,
    {
    }

    /// Returns the device to its power-on state. The files and the layout
    /// stay.
    fn reset(&mut self)
        ensures
            final(self)@ == old(self)@.reset(),
            final(self)@.wf(),
    {
        proof {
            use_type_invariant(&*self);
        }
        self.dma = DmaPhase::Idle;
        self.data_offset = 0;
        self.buf_valid = false;
        self.selector = Selector(INITIAL_SELECTOR);
        self.dma_lo = 0;
        self.dma_hi = 0;
    }
}

impl ChipsetDevice for FwCfg {
    fn supports_pio(&self) -> (supported: bool)
        ensures
            supported,
    {
        true
    }

    fn supports_mmio(&self) -> (supported: bool)
        ensures
            supported,
    {
        true
    }
}

impl PortIoIntercept for FwCfg {
    /// Serves a read from an I/O port. Only the data port can be read, one
    /// byte at a time.
    fn io_read(&mut self, io_port: u16, data: &mut [u8]) -> (out: IoResult)
        ensures
            out == FwCfgModel::read_outcome(
                old(self)@.pio_target(io_port),
                old(data)@.len(),
                true,
            ),
            final(self)@ == old(self)@.after_read(
                old(self)@.pio_target(io_port),
                old(data)@.len(),
                true,
            ),
            final(data)@ == old(self)@.read_copy(
                old(self)@.pio_target(io_port),
                old(data)@.len(),
                true,
            ) + old(data)@.skip(
                old(self)@.read_copy(old(self)@.pio_target(io_port), old(data)@.len(), true).len() as int,
            ),
            final(self)@.wf(),
    {
        let target = self.pio_target(io_port);
        let out = self.read_register(target, data, true);
        proof {
            use_type_invariant(&*self);
        }
        out
    }

    /// Serves a write to an I/O port. The selector is little-endian.
    fn io_write(&mut self, io_port: u16, data: &[u8]) -> (out: IoResult)
        ensures
            (out, final(self)@) == old(self)@.write_outcome(
                old(self)@.pio_target(io_port),
                data@,
                false,
            ),
            final(self)@.wf(),
    {
        proof {
            use_type_invariant(&*self);
        }
        let out = match self.pio_target(io_port) {
            Some(register) => self.write_register(register, data, false),
            None => IoResult::Err(IoError::InvalidRegister),
        };
        proof {
            use_type_invariant(&*self);
        }
        out
    }

    fn get_static_regions(&self) -> (regions: &[PortRegion])
        ensures
            claims_ports(self@.register_layout, regions@),
    {
        proof {
            use_type_invariant(self);
        }
        self.pio_regions.as_slice()
    }
}

impl MmioIntercept for FwCfg {
    /// Serves a read from guest physical memory. Only the data register
    /// can be read, with any width.
    fn mmio_read(&mut self, addr: u64, data: &mut [u8]) -> (out: IoResult)
        ensures
            out == FwCfgModel::read_outcome(
                old(self)@.mmio_target(addr),
                old(data)@.len(),
                false,
            ),
            final(self)@ == old(self)@.after_read(
                old(self)@.mmio_target(addr),
                old(data)@.len(),
                false,
            ),
            final(data)@ == old(self)@.read_copy(
                old(self)@.mmio_target(addr),
                old(data)@.len(),
                false,
            ) + old(data)@.skip(
                old(self)@.read_copy(old(self)@.mmio_target(addr), old(data)@.len(), false).len() as int,
            ),
            final(self)@.wf(),
    {
        let target = self.mmio_target(addr);
        let out = self.read_register(target, data, false);
        proof {
            use_type_invariant(&*self);
        }
        out
    }

    /// Serves a write to guest physical memory. The selector is big-endian.
    fn mmio_write(&mut self, addr: u64, data: &[u8]) -> (out: IoResult)
        ensures
            (out, final(self)@) == old(self)@.write_outcome(
                old(self)@.mmio_target(addr),
                data@,
                true,
            ),
            final(self)@.wf(),
    {
        proof {
            use_type_invariant(&*self);
        }
        let out = match self.mmio_target(addr) {
            Some(register) => self.write_register(register, data, true),
            None => IoResult::Err(IoError::InvalidRegister),
        };
        proof {
            use_type_invariant(&*self);
        }
        out
    }

    fn get_static_mmio_regions(&self) -> (regions: &[MmioRegion])
        ensures
            claims_addresses(self@.register_layout, regions@),
    {
        proof {
            use_type_invariant(self);
        }
        self.mmio_regions.as_slice()
    }
}

impl SaveRestore for FwCfg {
    type SavedState = NoSavedState;

    /// The device saves nothing.
    fn save(&mut self) -> (saved: Result<NoSavedState, SaveError>)
        ensures
            saved is Ok,
            final(self)@ == old(self)@,
    {
        Ok(NoSavedState)
    }

    /// Nothing was saved, so nothing is put back.
    fn restore(&mut self, state: NoSavedState) -> (restored: Result<(), RestoreError>)
        ensures
            restored is Ok,
            final(self)@ == old(self)@,
    {
        Ok(())
    }
}

} // verus!
