use chipset_devices::chipset_device::{
    ChangeDeviceState, ChipsetDevice, IoError, MmioIntercept, PortIoIntercept,
};
use chipset_devices::fw_cfg::defs::{
    DmaAccess, DmaControl, FileDirFile, FileDirFiles, IdBitmap, Selector,
};
use chipset_devices::fw_cfg::e820::gen_e820;
use chipset_devices::fw_cfg::file_dir::{check_files, gen_file_dir, MAX_NAME_LEN};
use chipset_devices::fw_cfg::model::DmaAction;
use chipset_devices::fw_cfg::resolver::FwCfgResolver;
use chipset_devices::fw_cfg::{
    Error, FwCfg, FwCfgConfig, FwCfgFile, FwCfgRegisterLayout, HostFile,
};
use chipset_devices::fw_cfg_resources::FwCfgHandle;
use chipset_devices::memory_layout::{MemoryLayout, MemoryRange};
use chipset_devices::save_restore::SaveRestore;

const MMIO_BASE: u64 = 0x0902_0000;

fn layout() -> MemoryLayout {
    MemoryLayout {
        ram: vec![
            MemoryRange { start: 0, len: 0xA0000 },
            MemoryRange { start: 0x10_0000, len: 0x7FF0_0000 },
        ],
    }
}

fn e820_bytes() -> Vec<u8> {
    let mut table = Vec::new();
    table.extend_from_slice(&[0, 0, 0, 0, 0, 0, 0, 0]);
    table.extend_from_slice(&[0x00, 0x00, 0x0A, 0x00, 0, 0, 0, 0]);
    table.extend_from_slice(&[1, 0, 0, 0]);
    table.extend_from_slice(&[0x00, 0x00, 0x10, 0x00, 0, 0, 0, 0]);
    table.extend_from_slice(&[0x00, 0x00, 0xF0, 0x7F, 0, 0, 0, 0]);
    table.extend_from_slice(&[1, 0, 0, 0]);
    table
}

fn extra_files() -> Vec<(String, FwCfgFile)> {
    vec![
        ("opt/greeting".to_string(), FwCfgFile::String("hello, firmware".to_string())),
        ("opt/blob".to_string(), FwCfgFile::Vec((0..=255u8).collect())),
        (
            "opt/host".to_string(),
            FwCfgFile::File(HostFile { len: Some(5), contents: Some(vec![9, 8, 7, 6, 5]) }),
        ),
    ]
}

fn pio_device() -> FwCfg {
    FwCfg::new(FwCfgConfig {
        register_layout: FwCfgRegisterLayout::IoPort,
        mem_layout: layout(),
        files: extra_files(),
    })
    .unwrap()
}

fn mmio_device() -> FwCfg {
    FwCfg::new(FwCfgConfig {
        register_layout: FwCfgRegisterLayout::Mmio(MMIO_BASE),
        mem_layout: layout(),
        files: extra_files(),
    })
    .unwrap()
}

fn select(device: &mut FwCfg, selector: u16) {
    assert_eq!(device.io_write(0x510, &selector.to_le_bytes()), Ok(()));
}

/// Whether the cursor is at the end of the selected item: a read copies
/// nothing, whatever the buffer held.
fn at_end(device: &mut FwCfg) -> bool {
    let mut low = [0x00u8];
    let mut high = [0xFFu8];
    assert_eq!(device.io_read(0x511, &mut low), Ok(()));
    assert_eq!(device.io_read(0x511, &mut high), Ok(()));
    low == [0x00] && high == [0xFF]
}

/// Reads the selected item to its end, one byte at a time. The items of
/// these tests hold no two bytes 0x5A, 0xA5 in a row, so that a read that
/// leaves both markers untouched has copied nothing.
fn read_all(device: &mut FwCfg) -> Vec<u8> {
    let mut out = Vec::new();
    loop {
        let mut byte = [0x5Au8];
        assert_eq!(device.io_read(0x511, &mut byte), Ok(()));
        if byte == [0x5A] {
            let mut next = [0xA5u8];
            assert_eq!(device.io_read(0x511, &mut next), Ok(()));
            if next == [0xA5] {
                assert!(at_end(device));
                return out;
            }
            out.push(byte[0]);
            out.push(next[0]);
        } else {
            out.push(byte[0]);
        }
    }
}

fn name_field(name: &str) -> Vec<u8> {
    let mut field = name.as_bytes().to_vec();
    field.resize(56, 0);
    field
}

fn dir_entry(size: u32, selector: u16, name: &str) -> Vec<u8> {
    let mut entry = Vec::new();
    entry.extend_from_slice(&size.to_be_bytes());
    entry.extend_from_slice(&selector.to_be_bytes());
    entry.extend_from_slice(&[0, 0]);
    entry.extend_from_slice(&name_field(name));
    entry
}

fn expected_dir() -> Vec<u8> {
    let mut dir = vec![0, 0, 0, 5];
    dir.extend(dir_entry(40, 0x20, "etc/e820"));
    dir.extend(dir_entry(1, 0x21, "etc/show-boot-menu"));
    dir.extend(dir_entry(15, 0x22, "opt/greeting"));
    dir.extend(dir_entry(256, 0x23, "opt/blob"));
    dir.extend(dir_entry(5, 0x24, "opt/host"));
    dir
}

#[test]
fn signature_reads_qemu() {
    let mut device = pio_device();
    select(&mut device, Selector::SIGNATURE);
    assert_eq!(read_all(&mut device), b"QEMU".to_vec());
}

#[test]
fn id_reports_both_interfaces_little_endian() {
    let mut device = pio_device();
    select(&mut device, Selector::ID);
    assert_eq!(read_all(&mut device), vec![0x03, 0x00, 0x00, 0x00]);
    let id = IdBitmap::from_bits(3);
    assert!(id.trad());
    assert!(id.dma());
    assert_eq!(IdBitmap::new().with_trad(true).into_bits(), 1);
    assert_eq!(IdBitmap::new().with_dma(true).into_bits(), 2);
    assert_eq!(IdBitmap::from_bits(3).with_trad(false).into_bits(), 2);
}

#[test]
fn file_directory_lists_files_in_registration_order() {
    let mut device = pio_device();
    select(&mut device, Selector::FILE_DIR);
    let dir = read_all(&mut device);
    assert_eq!(dir.len(), 4 + 5 * 64);
    assert_eq!(dir, expected_dir());
    // selectors count up from the base
    for index in 0..5usize {
        let at = 4 + 64 * index + 4;
        assert_eq!(&dir[at..at + 2], &(Selector::BASE_FILE + index as u16).to_be_bytes());
    }
}

#[test]
fn files_read_back_their_registered_bytes() {
    let mut device = pio_device();
    select(&mut device, 0x20);
    assert_eq!(read_all(&mut device), e820_bytes());
    select(&mut device, 0x21);
    assert_eq!(read_all(&mut device), vec![1]);
    select(&mut device, 0x22);
    assert_eq!(read_all(&mut device), b"hello, firmware".to_vec());
    select(&mut device, 0x23);
    assert_eq!(read_all(&mut device), (0..=255u8).collect::<Vec<u8>>());
    select(&mut device, 0x24);
    assert_eq!(read_all(&mut device), vec![9, 8, 7, 6, 5]);
}

#[test]
fn chunk_width_does_not_change_what_is_read() {
    let blob: Vec<u8> = (0..=255u8).collect();
    for width in [1usize, 2, 3, 4, 7, 8, 64, 255, 256, 300] {
        let mut device = mmio_device();
        assert_eq!(device.mmio_write(MMIO_BASE + 8, &0x23u16.to_be_bytes()), Ok(()));
        let mut out = Vec::new();
        while out.len() < blob.len() {
            let mut chunk = vec![0xEE; width];
            assert_eq!(device.mmio_read(MMIO_BASE, &mut chunk), Ok(()));
            let copied = width.min(blob.len() - out.len());
            // what lies behind the copied bytes is untouched
            assert!(chunk[copied..].iter().all(|byte| *byte == 0xEE));
            out.extend_from_slice(&chunk[..copied]);
        }
        assert_eq!(out, blob);
        // the item is exhausted: a further read copies nothing and is no fault
        let mut chunk = vec![0xEE; width];
        assert_eq!(device.mmio_read(MMIO_BASE, &mut chunk), Ok(()));
        assert!(chunk.iter().all(|byte| *byte == 0xEE));
    }
}

#[test]
fn unknown_selectors_read_empty() {
    let mut device = pio_device();
    for selector in [0x03u16, 0x18, 0x1A, 0x1F, 0x25, 0x7FFF, 0x8000, 0x8003, 0xFFFF] {
        select(&mut device, selector);
        let mut byte = [0xEEu8];
        assert_eq!(device.io_read(0x511, &mut byte), Ok(()));
        assert_eq!(byte, [0xEE]);
    }
}

#[test]
fn legacy_selectors_are_accepted_and_empty() {
    let mut device = pio_device();
    for selector in [
        Selector::UUID,
        Selector::NOGRAPHIC,
        Selector::NB_CPUS,
        Selector::NUMA,
        Selector::BOOT_MENU,
        Selector::MAX_CPUS,
        Selector::X86_ACPI_TABLES,
        Selector::X86_SMBIOS_ENTRIES,
        Selector::X86_IRQ0_OVERRIDE,
        Selector::X86_E820_TABLE,
    ] {
        select(&mut device, selector);
        assert_eq!(read_all(&mut device), Vec::<u8>::new());
    }
}

#[test]
fn reading_before_any_selection_is_empty() {
    let mut device = pio_device();
    assert_eq!(read_all(&mut device), Vec::<u8>::new());
}

#[test]
fn selector_write_rewinds_the_cursor() {
    let mut device = pio_device();
    select(&mut device, Selector::SIGNATURE);
    let mut byte = [0u8];
    device.io_read(0x511, &mut byte).unwrap();
    assert_eq!(byte, [b'Q']);
    device.io_read(0x511, &mut byte).unwrap();
    assert_eq!(byte, [b'E']);
    // the same selector again: back to the start
    select(&mut device, Selector::SIGNATURE);
    device.io_read(0x511, &mut byte).unwrap();
    assert_eq!(byte, [b'Q']);
    // another selector and back
    select(&mut device, Selector::ID);
    device.io_read(0x511, &mut byte).unwrap();
    assert_eq!(byte, [3]);
    select(&mut device, Selector::SIGNATURE);
    assert_eq!(read_all(&mut device), b"QEMU".to_vec());
}

#[test]
fn selecting_twice_without_a_read_selects_the_new_item() {
    let mut device = pio_device();
    select(&mut device, Selector::SIGNATURE);
    assert_eq!(read_all(&mut device), b"QEMU".to_vec());
    select(&mut device, Selector::ID);
    select(&mut device, Selector::ID);
    assert_eq!(read_all(&mut device), vec![3, 0, 0, 0]);
}

#[test]
fn reads_continue_where_the_last_one_stopped() {
    let mut device = mmio_device();
    device.mmio_write(MMIO_BASE + 8, &[0x00, 0x22]).unwrap();
    let mut first = [0u8; 5];
    let mut second = [0u8; 4];
    device.mmio_read(MMIO_BASE, &mut first).unwrap();
    device.mmio_read(MMIO_BASE, &mut second).unwrap();
    assert_eq!(&first, b"hello");
    assert_eq!(&second, b", fi");
}

#[test]
fn pio_registers_and_widths() {
    let mut device = pio_device();
    let mut byte = [0u8];
    let mut word = [0u8; 2];
    // only the data port can be read, one byte at a time
    assert_eq!(device.io_read(0x510, &mut byte), Err(IoError::InvalidRegister));
    assert_eq!(device.io_read(0x510, &mut word), Err(IoError::InvalidRegister));
    assert_eq!(device.io_read(0x514, &mut byte), Err(IoError::InvalidRegister));
    assert_eq!(device.io_read(0x518, &mut byte), Err(IoError::InvalidRegister));
    assert_eq!(device.io_read(0x512, &mut byte), Err(IoError::InvalidRegister));
    assert_eq!(device.io_read(0x511, &mut word), Err(IoError::InvalidAccessSize));
    assert_eq!(device.io_read(0x511, &mut []), Err(IoError::InvalidAccessSize));
    assert_eq!(device.io_read(0x511, &mut byte), Ok(()));
    // the selector takes two bytes
    assert_eq!(device.io_write(0x510, &[0]), Err(IoError::InvalidAccessSize));
    assert_eq!(device.io_write(0x510, &[0, 0, 0, 0]), Err(IoError::InvalidAccessSize));
    assert_eq!(device.io_write(0x510, &[0, 0]), Ok(()));
    // a write to the data port is accepted and ignored
    assert_eq!(device.io_write(0x511, &[0x55]), Ok(()));
    assert_eq!(read_all(&mut device), b"QEMU".to_vec());
    // the DMA registers take four bytes, the high one also eight
    assert_eq!(device.io_write(0x514, &[0]), Err(IoError::InvalidAccessSize));
    assert_eq!(device.io_write(0x514, &[0, 0]), Err(IoError::InvalidAccessSize));
    assert_eq!(device.io_write(0x518, &[0, 0]), Err(IoError::InvalidAccessSize));
    assert_eq!(device.io_write(0x518, &[0; 8]), Err(IoError::InvalidAccessSize));
    assert_eq!(device.io_write(0x514, &[0; 4]), Ok(()));
    assert_eq!(device.io_write(0x513, &[0; 4]), Err(IoError::InvalidRegister));
    assert_eq!(device.io_write(0x51c, &[0; 4]), Err(IoError::InvalidRegister));
}

#[test]
fn rejected_access_changes_nothing() {
    let mut device = pio_device();
    select(&mut device, Selector::SIGNATURE);
    let mut byte = [0u8];
    device.io_read(0x511, &mut byte).unwrap();
    assert_eq!(device.io_write(0x510, &[0x19]), Err(IoError::InvalidAccessSize));
    let mut word = [0xEEu8; 2];
    assert_eq!(device.io_read(0x511, &mut word), Err(IoError::InvalidAccessSize));
    assert_eq!(word, [0xEE; 2]);
    assert_eq!(read_all(&mut device), b"EMU".to_vec());
}

#[test]
fn mmio_registers_and_widths() {
    let mut device = mmio_device();
    let mut qword = [0u8; 8];
    assert_eq!(device.mmio_read(MMIO_BASE + 8, &mut qword), Err(IoError::InvalidRegister));
    assert_eq!(device.mmio_read(MMIO_BASE + 16, &mut qword), Err(IoError::InvalidRegister));
    assert_eq!(device.mmio_read(MMIO_BASE + 1, &mut qword), Err(IoError::InvalidRegister));
    assert_eq!(device.mmio_read(MMIO_BASE - 1, &mut qword), Err(IoError::InvalidRegister));
    assert_eq!(device.mmio_read(0, &mut qword), Err(IoError::InvalidRegister));
    assert_eq!(device.mmio_write(MMIO_BASE + 8, &[0]), Err(IoError::InvalidAccessSize));
    assert_eq!(device.mmio_write(MMIO_BASE + 9, &[0, 0]), Err(IoError::InvalidRegister));
    assert_eq!(device.mmio_write(MMIO_BASE + 20, &[0, 0]), Err(IoError::InvalidAccessSize));
    assert_eq!(device.mmio_write(MMIO_BASE, &[1, 2, 3]), Ok(()));
    // the selector is big-endian here
    assert_eq!(device.mmio_write(MMIO_BASE + 8, &[0x00, 0x00]), Ok(()));
    assert_eq!(device.mmio_read(MMIO_BASE, &mut qword), Ok(()));
    assert_eq!(&qword, b"QEMU\0\0\0\0");
    assert_eq!(device.mmio_write(MMIO_BASE + 8, &[0x00, 0x19]), Ok(()));
    let mut head = [0u8; 4];
    assert_eq!(device.mmio_read(MMIO_BASE, &mut head), Ok(()));
    assert_eq!(head, [0, 0, 0, 5]);
}

#[test]
fn selector_is_little_endian_on_ports() {
    let mut device = pio_device();
    assert_eq!(device.io_write(0x510, &[0x19, 0x00]), Ok(()));
    let mut byte = [0xEEu8];
    for expected in [0u8, 0, 0, 5] {
        device.io_read(0x511, &mut byte).unwrap();
        assert_eq!(byte[0], expected);
    }
    // 0x1900 names nothing
    assert_eq!(device.io_write(0x510, &[0x00, 0x19]), Ok(()));
    assert_eq!(read_all(&mut device), Vec::<u8>::new());
}

#[test]
fn a_device_answers_only_on_its_own_layout() {
    let mut pio = pio_device();
    let mut mmio = mmio_device();
    let mut byte = [0u8];
    assert_eq!(pio.mmio_read(0, &mut byte), Err(IoError::InvalidRegister));
    assert_eq!(pio.mmio_write(8, &[0, 0]), Err(IoError::InvalidRegister));
    assert_eq!(mmio.io_read(0x511, &mut byte), Err(IoError::InvalidRegister));
    assert_eq!(mmio.io_write(0x510, &[0, 0]), Err(IoError::InvalidRegister));
}

#[test]
fn static_regions_follow_the_layout() {
    let pio = pio_device();
    let regions: Vec<(&str, u16, u16)> = PortIoIntercept::get_static_regions(&pio)
        .iter()
        .map(|region| (region.name, region.start, region.end))
        .collect();
    assert_eq!(regions, vec![("selector+data", 0x510, 0x511), ("dma", 0x514, 0x51b)]);
    assert!(pio.get_static_mmio_regions().is_empty());

    let mmio = mmio_device();
    let regions: Vec<(&str, u64, u64)> = mmio
        .get_static_mmio_regions()
        .iter()
        .map(|region| (region.name, region.start, region.end))
        .collect();
    assert_eq!(
        regions,
        vec![
            ("selector", MMIO_BASE + 8, MMIO_BASE + 9),
            ("data", MMIO_BASE, MMIO_BASE + 7),
            ("dma", MMIO_BASE + 16, MMIO_BASE + 23),
        ]
    );
    assert!(PortIoIntercept::get_static_regions(&mmio).is_empty());
}

#[test]
fn device_declares_both_capabilities() {
    let device = pio_device();
    assert!(device.supports_pio());
    assert!(device.supports_mmio());
}

#[test]
fn reset_returns_to_power_on_and_keeps_the_files() {
    let mut device = pio_device();
    select(&mut device, 0x22);
    let mut byte = [0u8];
    device.io_read(0x511, &mut byte).unwrap();
    device.io_write(0x514, &[0, 0, 0, 1]).unwrap();
    device.io_write(0x518, &[0, 0, 0, 0x10]).unwrap();
    device.start();
    device.stop();
    device.reset();
    assert!(matches!(device.dma_action(), DmaAction::Idle));
    assert_eq!(read_all(&mut device), Vec::<u8>::new());
    // the high half of the DMA address is cleared too
    device.io_write(0x518, &[0, 0, 0, 0x10]).unwrap();
    assert!(matches!(device.dma_action(), DmaAction::ReadGuest { address: 0x10, len: 16 }));
    select(&mut device, 0x22);
    assert_eq!(read_all(&mut device), b"hello, firmware".to_vec());
}

#[test]
fn save_and_restore_carry_no_state() {
    let mut device = pio_device();
    select(&mut device, Selector::SIGNATURE);
    let mut byte = [0u8];
    device.io_read(0x511, &mut byte).unwrap();
    let saved = device.save().unwrap();
    device.restore(saved).unwrap();
    assert_eq!(read_all(&mut device), b"EMU".to_vec());
}

#[test]
fn construction_rejects_a_name_that_is_not_ascii() {
    let out = FwCfg::new(FwCfgConfig {
        register_layout: FwCfgRegisterLayout::IoPort,
        mem_layout: layout(),
        files: vec![("opt/caf\u{e9}".to_string(), FwCfgFile::Vec(vec![1]))],
    });
    assert!(matches!(out, Err(Error::FilenameNotAscii(name)) if name == "opt/caf\u{e9}"));
}

#[test]
fn construction_rejects_a_name_that_is_too_long() {
    let long = "x".repeat(MAX_NAME_LEN + 1);
    let out = FwCfg::new(FwCfgConfig {
        register_layout: FwCfgRegisterLayout::IoPort,
        mem_layout: layout(),
        files: vec![(long.clone(), FwCfgFile::Vec(vec![1]))],
    });
    assert!(matches!(out, Err(Error::FilenameTooLong(name)) if name == long));

    let longest = "x".repeat(MAX_NAME_LEN);
    let out = FwCfg::new(FwCfgConfig {
        register_layout: FwCfgRegisterLayout::IoPort,
        mem_layout: layout(),
        files: vec![(longest, FwCfgFile::Vec(vec![1]))],
    });
    assert!(out.is_ok());
}

#[test]
fn construction_rejects_a_file_without_metadata() {
    let out = FwCfg::new(FwCfgConfig {
        register_layout: FwCfgRegisterLayout::IoPort,
        mem_layout: layout(),
        files: vec![(
            "opt/gone".to_string(),
            FwCfgFile::File(HostFile { len: None, contents: None }),
        )],
    });
    assert!(matches!(out, Err(Error::MetadataIo(name)) if name == "opt/gone"));
}

#[test]
fn construction_rejects_a_file_that_is_too_big() {
    let out = FwCfg::new(FwCfgConfig {
        register_layout: FwCfgRegisterLayout::IoPort,
        mem_layout: layout(),
        files: vec![(
            "opt/huge".to_string(),
            FwCfgFile::File(HostFile { len: Some(0x1_0000_0000), contents: None }),
        )],
    });
    assert!(matches!(out, Err(Error::FileTooBig(name)) if name == "opt/huge"));

    let out = FwCfg::new(FwCfgConfig {
        register_layout: FwCfgRegisterLayout::IoPort,
        mem_layout: layout(),
        files: vec![(
            "opt/large".to_string(),
            FwCfgFile::File(HostFile { len: Some(0xFFFF_FFFF), contents: None }),
        )],
    });
    assert!(out.is_ok());
}

#[test]
fn construction_reports_the_first_bad_file_and_the_name_before_the_size() {
    let out = FwCfg::new(FwCfgConfig {
        register_layout: FwCfgRegisterLayout::IoPort,
        mem_layout: layout(),
        files: vec![
            ("opt/fine".to_string(), FwCfgFile::Vec(vec![1])),
            (
                "x".repeat(60),
                FwCfgFile::File(HostFile { len: None, contents: None }),
            ),
            ("opt/caf\u{e9}".to_string(), FwCfgFile::Vec(vec![1])),
        ],
    });
    assert!(matches!(out, Err(Error::FilenameTooLong(_))));
}

#[test]
fn unreadable_host_file_is_listed_and_reads_empty() {
    let mut device = FwCfg::new(FwCfgConfig {
        register_layout: FwCfgRegisterLayout::IoPort,
        mem_layout: MemoryLayout { ram: Vec::new() },
        files: vec![(
            "opt/locked".to_string(),
            FwCfgFile::File(HostFile { len: Some(7), contents: None }),
        )],
    })
    .unwrap();
    select(&mut device, Selector::FILE_DIR);
    let mut dir = vec![0, 0, 0, 3];
    dir.extend(dir_entry(0, 0x20, "etc/e820"));
    dir.extend(dir_entry(1, 0x21, "etc/show-boot-menu"));
    dir.extend(dir_entry(7, 0x22, "opt/locked"));
    assert_eq!(read_all(&mut device), dir);
    select(&mut device, 0x22);
    assert_eq!(read_all(&mut device), Vec::<u8>::new());
    assert_eq!(read_all(&mut device), Vec::<u8>::new());
}

#[test]
fn check_files_accepts_and_rejects() {
    assert!(check_files(&extra_files()).is_ok());
    assert!(check_files(&[]).is_ok());
    let bad = vec![("\u{7f}ok".to_string(), FwCfgFile::Vec(vec![])), ("\u{80}".to_string(), FwCfgFile::Vec(vec![]))];
    assert!(matches!(check_files(&bad), Err(Error::FilenameNotAscii(name)) if name == "\u{80}"));
}

#[test]
fn gen_file_dir_appends_to_the_buffer() {
    let mut buf = vec![0xAA];
    gen_file_dir(&mut buf, &extra_files()).unwrap();
    let mut expected = vec![0xAA, 0, 0, 0, 3];
    expected.extend(dir_entry(15, 0x20, "opt/greeting"));
    expected.extend(dir_entry(256, 0x21, "opt/blob"));
    expected.extend(dir_entry(5, 0x22, "opt/host"));
    assert_eq!(buf, expected);
}

#[test]
fn gen_file_dir_stops_before_a_bad_file() {
    let files = vec![
        ("a".to_string(), FwCfgFile::String("abc".to_string())),
        ("b".to_string(), FwCfgFile::File(HostFile { len: None, contents: None })),
        ("c".to_string(), FwCfgFile::Vec(vec![])),
    ];
    let mut buf = Vec::new();
    let out = gen_file_dir(&mut buf, &files);
    assert!(matches!(out, Err(Error::MetadataIo(name)) if name == "b"));
    let mut expected = vec![0, 0, 0, 3];
    expected.extend(dir_entry(3, 0x20, "a"));
    assert_eq!(buf, expected);
}

#[test]
fn gen_file_dir_of_no_files_is_the_head() {
    let mut buf = Vec::new();
    gen_file_dir(&mut buf, &[]).unwrap();
    assert_eq!(buf, vec![0, 0, 0, 0]);
}

#[test]
fn e820_table_has_one_ram_entry_per_range() {
    assert_eq!(gen_e820(&layout()), e820_bytes());
    assert_eq!(gen_e820(&MemoryLayout { ram: Vec::new() }), Vec::<u8>::new());
    let high = MemoryLayout {
        ram: vec![MemoryRange { start: 0x0123_4567_89AB_CDEF, len: 0xFEDC_BA98_7654_3210 }],
    };
    assert_eq!(
        gen_e820(&high),
        vec![
            0xEF, 0xCD, 0xAB, 0x89, 0x67, 0x45, 0x23, 0x01, 0x10, 0x32, 0x54, 0x76, 0x98, 0xBA,
            0xDC, 0xFE, 0x01, 0x00, 0x00, 0x00
        ]
    );
}

#[test]
fn directory_structures_are_big_endian() {
    assert_eq!(FileDirFiles { count: 0x0102_0304 }.as_bytes(), [1, 2, 3, 4]);
    let mut name = [0u8; 56];
    name[..3].copy_from_slice(b"abc");
    let entry = FileDirFile { size: 0x0A0B_0C0D, select: 0x1234, reserved: 0x5678, name };
    let bytes = entry.as_bytes();
    assert_eq!(bytes.len(), FileDirFile::SIZE);
    assert_eq!(&bytes[..8], &[0x0A, 0x0B, 0x0C, 0x0D, 0x12, 0x34, 0x56, 0x78]);
    assert_eq!(&bytes[8..], &name);
}

#[test]
fn dma_descriptor_is_big_endian() {
    let bytes = [
        0x00, 0x19, 0x00, 0x0A, 0x00, 0x00, 0x01, 0x00, 0x01, 0x02, 0x03, 0x04, 0x05, 0x06, 0x07,
        0x08,
    ];
    let access = DmaAccess::read_from(&bytes).unwrap();
    assert_eq!(access.control, 0x0019_000A);
    assert_eq!(access.length, 0x100);
    assert_eq!(access.address, 0x0102_0304_0506_0708);
    assert!(DmaAccess::read_from(&bytes[..15]).is_none());
    assert!(DmaAccess::read_from(&[0; 17]).is_none());
    assert!(DmaAccess::read_from(&[]).is_none());
}

#[test]
fn dma_control_fields() {
    let control = DmaControl::from_bits(0x0019_000A);
    assert!(!control.error());
    assert!(control.read());
    assert!(!control.skip());
    assert!(control.select());
    assert!(!control.write());
    assert_eq!(control.selector(), Selector(0x19));
    assert_eq!(DmaControl::new().with_error(true).into_bits(), 0x01);
    assert_eq!(DmaControl::new().with_read(true).into_bits(), 0x02);
    assert_eq!(DmaControl::new().with_skip(true).into_bits(), 0x04);
    assert_eq!(DmaControl::new().with_select(true).into_bits(), 0x08);
    assert_eq!(DmaControl::new().with_write(true).into_bits(), 0x10);
    assert_eq!(
        DmaControl::from_bits(0xFFFF_001F).with_selector(Selector(0x1234)).into_bits(),
        0x1234_001F
    );
    assert_eq!(DmaControl::from_bits(0x1F).with_write(false).into_bits(), 0x0F);
    assert_eq!(Selector::from_bits(0x8001).into_bits(), 0x8001);
}

#[test]
fn resolver_builds_a_device_with_the_builtin_files() {
    let handle = FwCfgHandle { register_layout: FwCfgRegisterLayout::IoPort };
    let mut device = FwCfgResolver.resolve(handle, layout()).unwrap();
    select(&mut device, Selector::FILE_DIR);
    let mut dir = vec![0, 0, 0, 2];
    dir.extend(dir_entry(40, 0x20, "etc/e820"));
    dir.extend(dir_entry(1, 0x21, "etc/show-boot-menu"));
    assert_eq!(read_all(&mut device), dir);
    assert_eq!(FwCfgHandle::ID, "fw_cfg");
}
