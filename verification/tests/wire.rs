use chipset_devices::bits::{get_bit32, get_bit8, set_bit32, set_bit8};
use chipset_devices::rfb::{
    EncodingType, PointerEventButtonMask, ProtocolVersion, PROTOCOL_VERSION_33,
    PROTOCOL_VERSION_37, PROTOCOL_VERSION_38,
};
use chipset_devices::xsync::{inherited_path, is_inherited, is_up_to_date};

#[test]
fn single_bits_of_a_byte() {
    assert!(get_bit8(0x80, 7));
    assert!(!get_bit8(0x7F, 7));
    assert!(get_bit8(0x01, 0));
    assert_eq!(set_bit8(0x00, 3, true), 0x08);
    assert_eq!(set_bit8(0xFF, 3, false), 0xF7);
    assert_eq!(set_bit8(0x08, 3, true), 0x08);
    assert_eq!(set_bit8(0xF7, 3, false), 0xF7);
}

#[test]
fn single_bits_of_a_word() {
    assert!(get_bit32(0x8000_0000, 31));
    assert!(!get_bit32(0x7FFF_FFFF, 31));
    assert_eq!(set_bit32(0, 16, true), 0x0001_0000);
    assert_eq!(set_bit32(0xFFFF_FFFF, 0, false), 0xFFFF_FFFE);
}

#[test]
fn encoding_travels_big_endian() {
    assert_eq!(EncodingType(EncodingType::ZRLE).to_wire(), [0, 0, 0, 16]);
    assert_eq!(EncodingType(EncodingType::TIGHT_PNG).to_wire(), [0xFF, 0xFF, 0xFE, 0xFC]);
    assert_eq!(EncodingType(0x0102_0304).to_wire(), [1, 2, 3, 4]);
    assert_eq!(EncodingType::from_wire([1, 2, 3, 4]), EncodingType(0x0102_0304));
    assert_eq!(
        EncodingType::from_wire([0x57, 0x4d, 0x56, 0x64]),
        EncodingType(EncodingType::VMWARE_CURSOR)
    );
    assert_eq!(EncodingType::from_wire(EncodingType(0xDEAD_BEEF).to_wire()).0, 0xDEAD_BEEF);
}

#[test]
fn negative_encodings_are_twos_complement() {
    assert_eq!(EncodingType::TIGHT_PNG as i32, -260);
    assert_eq!(EncodingType::JPEG_QUALITY_LEVEL_MIN as i32, -32);
    assert_eq!(EncodingType::JPEG_QUALITY_LEVEL_MAX as i32, -23);
    assert_eq!(EncodingType::DESKTOP_SIZE as i32, -223);
    assert_eq!(EncodingType::LAST_RECT as i32, -224);
    assert_eq!(EncodingType::CURSOR as i32, -239);
    assert_eq!(EncodingType::X_CURSOR as i32, -240);
    assert_eq!(EncodingType::COMPRESSION_LEVEL_MIN as i32, -256);
    assert_eq!(EncodingType::COMPRESSION_LEVEL_MAX as i32, -247);
    assert_eq!(EncodingType::QEMU_POINTER_MOTION_CHANGE as i32, -257);
    assert_eq!(EncodingType::QEMU_EXTENDED_KEY_EVENT as i32, -258);
    assert_eq!(EncodingType::QEMU_AUDIO as i32, -259);
    assert_eq!(EncodingType::QEMU_LED_STATE as i32, -261);
    assert_eq!(EncodingType::GII as i32, -305);
    assert_eq!(EncodingType::DESKTOP_NAME as i32, -307);
    assert_eq!(EncodingType::EXTENDED_DESKTOP_SIZE as i32, -308);
    assert_eq!(EncodingType::XVP as i32, -309);
    assert_eq!(EncodingType::FENCE as i32, -312);
    assert_eq!(EncodingType::CONTINUOUS_UPDATES as i32, -313);
    assert_eq!(EncodingType::CURSOR_WITH_ALPHA as i32, -314);
    assert_eq!(EncodingType::TIGHT_WITHOUT_ZLIB as i32, -317);
    assert_eq!(EncodingType::JPEG_FINE_GRAINED_QUALITY_MIN as i32, -512);
    assert_eq!(EncodingType::JPEG_FINE_GRAINED_QUALITY_MAX as i32, -412);
    assert_eq!(EncodingType::JPEG_SUBSAMPLING_MIN as i32, -768);
    assert_eq!(EncodingType::JPEG_SUBSAMPLING_MAX as i32, -763);
}

#[test]
fn protocol_versions_are_ascii_lines() {
    assert_eq!(&PROTOCOL_VERSION_33, b"RFB 003.003\n");
    assert_eq!(&PROTOCOL_VERSION_37, b"RFB 003.007\n");
    assert_eq!(&PROTOCOL_VERSION_38, b"RFB 003.008\n");
    assert_eq!(ProtocolVersion(PROTOCOL_VERSION_38).0[10], b'8');
}

#[test]
fn pointer_button_mask_fields() {
    let mask = PointerEventButtonMask::from_bits(0b0101_1010);
    assert!(!mask.left());
    assert!(mask.middle());
    assert!(!mask.right());
    assert!(mask.scroll_up());
    assert!(mask.scroll_down());
    assert!(!mask.scroll_left());
    assert!(mask.scroll_right());
    assert!(!mask.button8());
    assert_eq!(
        PointerEventButtonMask::new()
            .with_left(true)
            .with_middle(true)
            .with_right(true)
            .with_scroll_up(true)
            .with_scroll_down(true)
            .with_scroll_left(true)
            .with_scroll_right(true)
            .with_button8(true)
            .with_middle(false)
            .into_bits(),
        0b1111_1101
    );
}

#[test]
fn inherit_marker_is_exact() {
    assert!(is_inherited(&"$inherit".to_string()));
    assert!(!is_inherited(&"$inherit ".to_string()));
    assert!(!is_inherited(&"inherit".to_string()));
    assert!(!is_inherited(&"1.0".to_string()));
    assert!(!is_inherited(&String::new()));
}

#[test]
fn inherited_path_goes_through_the_base_workspace() {
    assert_eq!(inherited_path("../base", "vm/devices/fw_cfg"), "../base/vm/devices/fw_cfg");
    assert_eq!(inherited_path("", "x"), "/x");
    assert_eq!(inherited_path("..", ""), "../");
}

#[test]
fn generated_file_is_compared_exactly() {
    assert!(is_up_to_date(&"a = 1\n".to_string(), &"a = 1\n".to_string()));
    assert!(!is_up_to_date(&"a = 1\n".to_string(), &"a = 1".to_string()));
}
