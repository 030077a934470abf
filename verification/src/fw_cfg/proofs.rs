//! What holds of the firmware configuration device in every state.

use vstd::prelude::*;
use crate::chipset_device::{IoError, MmioRegion, PortRegion};
use crate::endian::{be16, be32};
use crate::fw_cfg::defs::{DmaAccess, DmaControl, FileDirFile, FileDirFiles, Selector};
use crate::fw_cfg::e820::{lemma_e820_table_len, E820_ENTRY_SIZE};
use crate::fw_cfg::file_dir::{
    all_valid, dir_entries, file_dir, file_models, FileModel, MAX_FILES,
};
use crate::fw_cfg::model::{
    claims_addresses, claims_ports, item_content, DmaPhase, DmaReply, DmaRequest, FwCfgModel,
    Register, DMA_CONTROL_ERROR,
};
use crate::fw_cfg::{boot_menu_file, e820_file, registered_files, FwCfgFile};
use crate::memory_layout::MemoryLayout;

verus! {

/// Whether `selector` names the signature, the feature bitmap, the file
/// directory or a registered file.
pub open spec fn names_item(files: Seq<FileModel>, selector: u16) -> bool {
    ||| selector == Selector::SIGNATURE
    ||| selector == Selector::ID
    ||| selector == Selector::FILE_DIR
    ||| (Selector::BASE_FILE <= selector < Selector::BASE_ARCH_LOCAL && selector
        - Selector::BASE_FILE < files.len())
}

/// The bytes that reads of the given widths copy, one read after another.
pub open spec fn reads(device: FwCfgModel, widths: Seq<nat>) -> Seq<u8>
    decreases widths.len(),
{
    if widths.len() == 0 {
        Seq::empty()
    } else {
        device.read_bytes(widths[0]) + reads(device.read_data(widths[0]), widths.skip(1))
    }
}

/// The sum of the given widths.
pub open spec fn total(widths: Seq<nat>) -> nat
    decreases widths.len(),
{
    if widths.len() == 0 {
        0
    } else {
        widths[0] + total(widths.skip(1))
    }
}

/// How far a DMA operation is from its end.
pub open spec fn dma_steps_left(phase: DmaPhase) -> nat {
    match phase {
        DmaPhase::Idle => 0,
        DmaPhase::Status { .. } => 1,
        DmaPhase::ToGuest { .. } => 2,
        DmaPhase::FromGuest { .. } => 2,
        DmaPhase::Descriptor { .. } => 3,
    }
}

/// The files that the device registers by itself are valid as long as the
/// memory map fits in 32 bits. So a device is built exactly where that
/// holds and every file of the configuration is valid.
pub proof fn lemma_builtin_files_are_valid(
    mem_layout: MemoryLayout,
    files: Seq<(String, FwCfgFile)>,
)
    ensures
        boot_menu_file().is_valid(),
        e820_file(mem_layout).is_valid() <==> E820_ENTRY_SIZE * mem_layout.ram@.len() <= u32::MAX,
        all_valid(registered_files(mem_layout, files)) <==> {
            &&& E820_ENTRY_SIZE * mem_layout.ram@.len() <= u32::MAX
            &&& all_valid(file_models(files))
        },
{
    reveal_strlit("etc/e820");
    reveal_strlit("etc/show-boot-menu");
    lemma_e820_table_len(mem_layout.ram@);
    let registered = registered_files(mem_layout, files);
    let given = file_models(files);
    if all_valid(registered) {
        assert(registered[0].is_valid());
        assert forall|i: int| 0 <= i < given.len() implies (#[trigger] given[i]).is_valid() by {
            assert(registered[i + 2] == given[i]);
        }
    }
    if E820_ENTRY_SIZE * mem_layout.ram@.len() <= u32::MAX && all_valid(given) {
        assert forall|i: int| 0 <= i < registered.len() implies (
        #[trigger] registered[i]).is_valid() by {
            if i >= 2 {
                assert(registered[i] == given[i - 2]);
            }
        }
    }
}

/// Whether `port` lies in one of `regions`.
pub open spec fn port_is_claimed(regions: Seq<PortRegion>, port: u16) -> bool {
    exists|i: int| 0 <= i < regions.len() && (#[trigger] regions[i]).start <= port <= regions[i].end
}

/// Whether `addr` lies in one of `regions`.
pub open spec fn address_is_claimed(regions: Seq<MmioRegion>, addr: u64) -> bool {
    exists|i: int| 0 <= i < regions.len() && (#[trigger] regions[i]).start <= addr <= regions[i].end
}

/// Every register lies in a range that the device claims. An access outside
/// of the claimed ranges, or of the other kind than the layout, reaches no
/// register: it is answered with `InvalidRegister` and changes nothing.
pub proof fn lemma_registers_lie_in_claimed_ranges(
    device: FwCfgModel,
    ports: Seq<PortRegion>,
    addresses: Seq<MmioRegion>,
    port: u16,
    addr: u64,
    bytes: Seq<u8>,
)
    requires
        device.wf(),
        claims_ports(device.register_layout, ports),
        claims_addresses(device.register_layout, addresses),
    ensures
        device.pio_target(port) is Some ==> port_is_claimed(ports, port),
        device.mmio_target(addr) is Some ==> address_is_claimed(addresses, addr),
        !port_is_claimed(ports, port) ==> {
            &&& device.write_outcome(device.pio_target(port), bytes, false) == (
                Err::<(), IoError>(IoError::InvalidRegister),
                device,
            )
            &&& FwCfgModel::read_outcome(device.pio_target(port), bytes.len(), true) == Err::<
                (),
                IoError,
            >(IoError::InvalidRegister)
            &&& device.after_read(device.pio_target(port), bytes.len(), true) == device
        },
        !address_is_claimed(addresses, addr) ==> {
            &&& device.write_outcome(device.mmio_target(addr), bytes, true) == (
                Err::<(), IoError>(IoError::InvalidRegister),
                device,
            )
            &&& FwCfgModel::read_outcome(device.mmio_target(addr), bytes.len(), false) == Err::<
                (),
                IoError,
            >(IoError::InvalidRegister)
            &&& device.after_read(device.mmio_target(addr), bytes.len(), false) == device
        },
{
}

/// A reset of a device that was reset changes nothing, and a device after
/// power-on is as after a reset.
pub proof fn lemma_reset_is_idempotent(device: FwCfgModel)
    ensures
        device.reset().reset() == device.reset(),
        FwCfgModel::power_on(device.register_layout, device.files).reset() == device.reset(),
        device.reset().files == device.files,
        device.reset().register_layout == device.register_layout,
{
}

/// A selector that names no item selects an empty item: a read of any
/// width succeeds, copies nothing and leaves the cursor at the start.
pub proof fn lemma_unknown_selector_reads_empty(device: FwCfgModel, selector: u16, width: nat)
    requires
        device.wf(),
        !names_item(device.files, selector),
    ensures
        device.write_selector(selector).data.len() == 0,
        device.write_selector(selector).read_bytes(width) == Seq::<u8>::empty(),
        device.write_selector(selector).read_data(width).offset == 0,
        FwCfgModel::read_result(Register::Data, width, false) is Ok,
        FwCfgModel::read_result(Register::Data, 1, true) is Ok,
{
}

/// The directory entries of `files` take [`FileDirFile::SIZE`] bytes each.
pub proof fn lemma_dir_entries_len(files: Seq<FileModel>)
    ensures
        dir_entries(files).len() == FileDirFile::SIZE * files.len(),
    decreases files.len(),
{
    if files.len() > 0 {
        lemma_dir_entries_len(files.drop_last());
    }
}

/// The entries of the first `count` files open the entries of all of them.
pub proof fn lemma_dir_entries_prefix(files: Seq<FileModel>, count: int)
    requires
        0 <= count <= files.len(),
    ensures
        dir_entries(files.take(count)) == dir_entries(files).take(FileDirFile::SIZE * count),
    decreases files.len(),
{
    lemma_dir_entries_len(files);
    lemma_dir_entries_len(files.take(count));
    if count == files.len() {
        assert(files.take(count) == files);
    } else {
        lemma_dir_entries_prefix(files.drop_last(), count);
        lemma_dir_entries_len(files.drop_last());
        assert(files.drop_last().take(count) == files.take(count));
    }
}

/// The file directory counts every registered file and lists them in the
/// order of their registration: the head is the number of files, and the
/// entry of file `index` stands `index` entries behind the head, with the
/// selector `Selector::BASE_FILE + index`, the file's size and its name.
pub proof fn lemma_file_dir_lists_every_file(files: Seq<FileModel>, index: int)
    requires
        files.len() <= MAX_FILES,
        0 <= index < files.len(),
    ensures
        file_dir(files).len() == FileDirFiles::SIZE + FileDirFile::SIZE * files.len(),
        file_dir(files).take(FileDirFiles::SIZE as int) == be32(files.len() as u32),
        file_dir(files).subrange(
            FileDirFiles::SIZE + FileDirFile::SIZE * index,
            FileDirFiles::SIZE + FileDirFile::SIZE * (index + 1),
        ) == files[index].dir_entry(index),
        files[index].dir_entry(index).len() == FileDirFile::SIZE,
        files[index].dir_entry(index).subrange(0, 4) == be32(files[index].size.unwrap() as u32),
        files[index].dir_entry(index).subrange(4, 6) == be16(
            (Selector::BASE_FILE + index) as u16,
        ),
        files[index].dir_entry(index).subrange(6, 8) == be16(0),
        files[index].dir_entry(index).subrange(8, 64) == files[index].name_field(),
{
    lemma_dir_entries_len(files);
    lemma_dir_entries_prefix(files, index);
    lemma_dir_entries_prefix(files, index + 1);
    lemma_dir_entries_len(files.take(index));
    let entries = dir_entries(files);
    let entry = files[index].dir_entry(index);
    assert(entries.subrange(FileDirFile::SIZE * index, FileDirFile::SIZE * (index + 1)) == entry)
        by {
        assert(entries.subrange(FileDirFile::SIZE * index, FileDirFile::SIZE * (index + 1))
            == entries.take(FileDirFile::SIZE * (index + 1)).skip(FileDirFile::SIZE * index));
    }
}

/// Reads, of whatever widths, copy the bytes of the item from the cursor
/// on, in order and without a gap, and stop at the end of the item.
pub proof fn lemma_reads_follow_the_item(device: FwCfgModel, widths: Seq<nat>)
    requires
        device.offset <= device.data.len(),
    ensures
        reads(device, widths) == device.read_bytes(total(widths)),
    decreases widths.len(),
{
    if widths.len() > 0 {
        lemma_reads_follow_the_item(device.read_data(widths[0]), widths.skip(1));
    }
}

/// Selecting a registered file and reading until the widths cover its
/// length gives exactly the registered bytes, whatever the widths of the
/// single reads are. The file is selected anew, or its bytes are those it
/// was registered with.
pub proof fn lemma_chunked_reads_reproduce_file(device: FwCfgModel, index: int, widths: Seq<nat>)
    requires
        device.wf(),
        0 <= index < device.files.len(),
        device.selector != Selector::BASE_FILE + index || device.data == item_content(
            device.files,
            device.selector,
        ),
        total(widths) >= device.files[index].bytes().len(),
    ensures
        reads(device.write_selector((Selector::BASE_FILE + index) as u16), widths)
            == device.files[index].bytes(),
{
    let selected = device.write_selector((Selector::BASE_FILE + index) as u16);
    lemma_reads_follow_the_item(selected, widths);
}

/// A write of the selector puts the cursor back to the start, also where
/// the selector does not change. Without such a write, a second read goes
/// on where the first one stopped.
pub proof fn lemma_cursor_moves_only_forward(
    device: FwCfgModel,
    selector: u16,
    first: nat,
    second: nat,
)
    requires
        device.offset <= device.data.len(),
    ensures
        device.write_selector(selector).offset == 0,
        device.read_data(first).offset == device.offset + device.read_count(first),
        device.read_data(first).read_bytes(second) == device.data.subrange(
            device.read_data(first).offset as int,
            (device.read_data(first).offset + device.read_data(first).read_count(second)) as int,
        ),
        device.read_bytes(first) + device.read_data(first).read_bytes(second)
            == device.read_bytes(first + second),
        device.read_data(first).read_data(second) == device.read_data(first + second),
{
}

/// What holds of the device after power-on holds after every access of the
/// guest, every reply to a DMA request, and every reset.
pub proof fn lemma_wf_is_kept(
    device: FwCfgModel,
    register: Register,
    bytes: Seq<u8>,
    big_endian: bool,
    width: nat,
    reply: DmaReply,
)
    requires
        device.wf(),
    ensures
        device.write(register, bytes, big_endian).1.wf(),
        device.read_data(width).wf(),
        device.dma_reply(reply).wf(),
        device.reset().wf(),
{
    match device.dma {
        DmaPhase::Descriptor { gpa } => {
            match reply {
                DmaReply::Data(data) => {
                    if data@.len() == DmaAccess::SIZE {
                        lemma_dma_begin_keeps_wf(device, gpa, DmaAccess::parse(data@));
                    }
                },
                _ => {},
            }
        },
        _ => {},
    }
}

/// A descriptor starts a transfer that fits the item.
pub proof fn lemma_dma_begin_keeps_wf(device: FwCfgModel, gpa: u64, access: DmaAccess)
    requires
        device.wf(),
    ensures
        device.dma_begin(gpa, access).wf(),
{
}

/// Every reply brings a DMA operation nearer to its end, so that it ends
/// after at most three accesses to guest memory.
pub proof fn lemma_dma_operation_ends(device: FwCfgModel, reply: DmaReply)
    requires
        !(device.dma is Idle),
    ensures
        dma_steps_left(device.dma_reply(reply).dma) < dma_steps_left(device.dma),
{
}

/// A DMA read moves the bytes that a read of the data register with the
/// same width copies, and moves the cursor as far.
pub proof fn lemma_dma_read_is_a_read(device: FwCfgModel, gpa: u64, access: DmaAccess)
    requires
        device.wf(),
        DmaControl(access.control).read(),
        !DmaControl(access.control).select(),
    ensures
        ({
            let started = device.dma_begin(gpa, access);
            let width = access.length as nat;
            if device.read_count(width) > 0 {
                &&& started.dma_request() == (DmaRequest::WriteGuest {
                    address: access.address,
                    data: device.read_bytes(width),
                })
                &&& started.dma_reply(DmaReply::Done).offset == device.read_data(width).offset
                &&& started.dma_reply(DmaReply::Done).data == device.data
                &&& started.dma_reply(DmaReply::Done).dma == (DmaPhase::Status {
                    gpa,
                    control: 0,
                })
            } else {
                started.dma == (DmaPhase::Status { gpa, control: 0 })
            }
        }),
{
}

/// A fault in guest memory ends a transfer without moving anything: the
/// selector, the item and the cursor stay, and the control word that is
/// stored for the guest has the error bit. A descriptor that cannot be read
/// ends the operation at once.
pub proof fn lemma_dma_fault_changes_nothing(device: FwCfgModel)
    ensures
        device.dma_reply(DmaReply::Fault).selector == device.selector,
        device.dma_reply(DmaReply::Fault).data == device.data,
        device.dma_reply(DmaReply::Fault).offset == device.offset,
        device.dma is Descriptor ==> device.dma_reply(DmaReply::Fault).dma is Idle,
        device.dma matches DmaPhase::ToGuest { gpa, .. } ==> device.dma_reply(DmaReply::Fault).dma
            == (DmaPhase::Status { gpa, control: DMA_CONTROL_ERROR }),
        device.dma matches DmaPhase::FromGuest { gpa, .. } ==> device.dma_reply(
            DmaReply::Fault,
        ).dma == (DmaPhase::Status { gpa, control: DMA_CONTROL_ERROR }),
{
}

} // verus!
