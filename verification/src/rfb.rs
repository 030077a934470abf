//! Messages of the remote framebuffer protocol, as they are laid out on
//! the wire. Multi-byte fields travel in big-endian order.

use vstd::prelude::*;
use crate::bits::{bit8, get_bit8, one_bit_written8, set_bit8, with_bit8};
use crate::endian::{be32, from_be32, u32_from_be, u32_to_be};

verus! {

// Handshaking messages
#[derive(Debug, Copy, Clone)]
pub struct ProtocolVersion(pub [u8; 12]);

pub const PROTOCOL_VERSION_33: [u8; 12] = [
    0x52, 0x46, 0x42, 0x20, 0x30, 0x30, 0x33, 0x2e, 0x30, 0x30, 0x33, 0x0a,
];

pub const PROTOCOL_VERSION_37: [u8; 12] = [
    0x52, 0x46, 0x42, 0x20, 0x30, 0x30, 0x33, 0x2e, 0x30, 0x30, 0x37, 0x0a,
];

pub const PROTOCOL_VERSION_38: [u8; 12] = [
    0x52, 0x46, 0x42, 0x20, 0x30, 0x30, 0x33, 0x2e, 0x30, 0x30, 0x38, 0x0a,
];

#[derive(Debug, Copy, Clone)]
pub struct Security33 {
    pub padding: [u8; 3],
    pub security_type: u8,
}

#[derive(Debug, Copy, Clone)]
pub struct Security37 {
    pub type_count: u8,
    // types: [u8; N]
}

pub const SECURITY_TYPE_INVALID: u8 = 0;

pub const SECURITY_TYPE_NONE: u8 = 1;

pub const SECURITY_TYPE_VNC_AUTHENTICATION: u8 = 2;

pub const SECURITY_TYPE_TIGHT: u8 = 16;

pub const SECURITY_TYPE_VENCRYPT: u8 = 19;

#[derive(Debug, Copy, Clone)]
pub struct SecurityResult {
    pub status: u32,
}

pub const SECURITY_RESULT_STATUS_OK: u32 = 0;

pub const SECURITY_RESULT_STATUS_FAILED: u32 = 1;

pub const SECURITY_RESULT_STATUS_FAILED_TOO_MANY_ATTEMPTS: u32 = 2;

#[derive(Debug, Copy, Clone)]
pub struct ClientInit {
    pub shared_flag: u8,
}

#[derive(Debug, Copy, Clone)]
pub struct ServerInit {
    pub framebuffer_width: u16,
    pub framebuffer_height: u16,
    pub server_pixel_format: PixelFormat,
    pub name_length: u32,
    // name_string: [u8; N],
}

#[derive(Debug, Copy, Clone)]
pub struct PixelFormat {
    pub bits_per_pixel: u8,
    pub depth: u8,
    pub big_endian_flag: u8,
    pub true_color_flag: u8,
    pub red_max: u16,
    pub green_max: u16,
    pub blue_max: u16,
    pub red_shift: u8,
    pub green_shift: u8,
    pub blue_shift: u8,
    pub padding: [u8; 3],
}

// Client to server messages
pub const CS_MESSAGE_SET_PIXEL_FORMAT: u8 = 0;

pub const CS_MESSAGE_SET_ENCODINGS: u8 = 2;

pub const CS_MESSAGE_FRAMEBUFFER_UPDATE_REQUEST: u8 = 3;

pub const CS_MESSAGE_KEY_EVENT: u8 = 4;

pub const CS_MESSAGE_POINTER_EVENT: u8 = 5;

pub const CS_MESSAGE_CLIENT_CUT_TEXT: u8 = 6;

pub const CS_MESSAGE_QEMU: u8 = 255;

#[derive(Debug, Copy, Clone)]
pub struct SetPixelFormat {
    pub message_type: u8,
    pub padding: [u8; 3],
    pub pixel_format: PixelFormat,
}

#[derive(Debug, Copy, Clone)]
pub struct SetEncodings {
    pub message_type: u8,
    pub padding: u8,
    pub encoding_count: u16,
    // encoding_type: [i32_be; N],
}

/// An encoding of framebuffer data, or a pseudo-encoding by which a client
/// announces an extension. Any 32-bit value may arrive; the named ones are
/// those that are registered.
#[derive(Debug, Copy, Clone, PartialEq, Eq, Structural)]
pub struct EncodingType(pub u32);

impl EncodingType {
    // Regular encodings
    pub const RAW: u32 = 0;

    pub const COPY_RECT: u32 = 1;

    pub const RRE: u32 = 2;

    pub const CO_RRE: u32 = 4;

    pub const HEXTILE: u32 = 5;

    pub const ZLIB: u32 = 6;

    pub const TIGHT: u32 = 7;

    pub const ZLIBHEX: u32 = 8;

    pub const ULTRA: u32 = 9;

    pub const ULTRA2: u32 = 10;

    pub const TRLE: u32 = 15;

    pub const ZRLE: u32 = 16;

    /// Hitachi ZYWRLE
    pub const ZYWRLE: u32 = 17;

    pub const H264: u32 = 20;

    pub const JPEG: u32 = 21;

    pub const JRLE: u32 = 22;

    pub const OPEN_H264: u32 = 50;

    /// -260
    pub const TIGHT_PNG: u32 = 0xffff_fefc;

    // Pseudo-encodings
    /// -32; the levels run from -23 to -32.
    pub const JPEG_QUALITY_LEVEL_MIN: u32 = 0xffff_ffe0;

    /// -23
    pub const JPEG_QUALITY_LEVEL_MAX: u32 = 0xffff_ffe9;

    /// -223
    pub const DESKTOP_SIZE: u32 = 0xffff_ff21;

    /// -224
    pub const LAST_RECT: u32 = 0xffff_ff20;

    /// -239
    pub const CURSOR: u32 = 0xffff_ff11;

    /// -240
    pub const X_CURSOR: u32 = 0xffff_ff10;

    /// -256; the levels run from -247 to -256.
    pub const COMPRESSION_LEVEL_MIN: u32 = 0xffff_ff00;

    /// -247
    pub const COMPRESSION_LEVEL_MAX: u32 = 0xffff_ff09;

    /// -257
    pub const QEMU_POINTER_MOTION_CHANGE: u32 = 0xffff_feff;

    /// -258
    pub const QEMU_EXTENDED_KEY_EVENT: u32 = 0xffff_fefe;

    /// -259
    pub const QEMU_AUDIO: u32 = 0xffff_fefd;

    /// -261
    pub const QEMU_LED_STATE: u32 = 0xffff_fefb;

    /// -305
    pub const GII: u32 = 0xffff_fecf;

    /// -307
    pub const DESKTOP_NAME: u32 = 0xffff_fecd;

    /// -308
    pub const EXTENDED_DESKTOP_SIZE: u32 = 0xffff_fecc;

    /// -309
    pub const XVP: u32 = 0xffff_fecb;

    /// -312
    pub const FENCE: u32 = 0xffff_fec8;

    /// -313
    pub const CONTINUOUS_UPDATES: u32 = 0xffff_fec7;

    /// -314
    pub const CURSOR_WITH_ALPHA: u32 = 0xffff_fec6;

    /// -317
    pub const TIGHT_WITHOUT_ZLIB: u32 = 0xffff_fec3;

    /// -512; the levels run from -412 to -512.
    pub const JPEG_FINE_GRAINED_QUALITY_MIN: u32 = 0xffff_fe00;

    /// -412
    pub const JPEG_FINE_GRAINED_QUALITY_MAX: u32 = 0xffff_fe64;

    /// -768; the levels run from -763 to -768.
    pub const JPEG_SUBSAMPLING_MIN: u32 = 0xffff_fd00;

    /// -763
    pub const JPEG_SUBSAMPLING_MAX: u32 = 0xffff_fd05;

    // VMware specific encodings
    pub const VMWARE_CURSOR: u32 = 0x574d5664;

    pub const VMWARE_CURSOR_STATE: u32 = 0x574d5665;

    pub const VMWARE_CURSOR_POSITION: u32 = 0x574d5666;

    pub const VMWARE_KEY_REPEAT: u32 = 0x574d5667;

    pub const VMWARE_LED_STATE: u32 = 0x574d5668;

    pub const VMWARE_DISPLAY_MODE_CHANGE: u32 = 0x574d5669;

    pub const VMWARE_VIRTUAL_MACHINE_STATE: u32 = 0x574d566a;

    // Extended clipboard
    pub const EXTENDED_CLIPBOARD: u32 = 0xc0a1e5ce;

    // Additional registered encodings
    pub const APPLE_RANGE_1_START: u32 = 1000;

    pub const APPLE_RANGE_1_END: u32 = 1002;

    pub const APPLE_1011: u32 = 1011;

    pub const APPLE_RANGE_2_START: u32 = 1100;

    pub const APPLE_RANGE_2_END: u32 = 1105;

    pub const REALVNC_RANGE_START: u32 = 1024;

    pub const REALVNC_RANGE_END: u32 = 1099;

    // Additional pseudo-encodings
    pub const KEYBOARD_LED_STATE: u32 = 0xfffe0000;

    pub const SUPPORTED_MESSAGES: u32 = 0xfffe0001;

    pub const SUPPORTED_ENCODINGS: u32 = 0xfffe0002;

    pub const SERVER_IDENTITY: u32 = 0xfffe0003;

    pub const CACHE: u32 = 0xffff0000;

    pub const CACHE_ENABLE: u32 = 0xffff0001;

    pub const XOR_ZLIB: u32 = 0xffff0002;

    pub const XOR_MONO_RECT_ZLIB: u32 = 0xffff0003;

    pub const XOR_MULTI_COLOR_ZLIB: u32 = 0xffff0004;

    pub const SOLID_COLOR: u32 = 0xffff0005;

    pub const XOR_ENABLE: u32 = 0xffff0006;

    pub const CACHE_ZIP: u32 = 0xffff0007;

    pub const SOL_MONO_ZIP: u32 = 0xffff0008;

    pub const ULTRA_ZIP: u32 = 0xffff0009;

    pub const SERVER_STATE: u32 = 0xffff8000;

    pub const ENABLE_KEEP_ALIVE: u32 = 0xffff8001;

    pub const FT_PROTOCOL_VERSION: u32 = 0xffff8002;

    pub const SESSION: u32 = 0xffff8003;

    /// The encoding as it travels: four bytes in big-endian order.
    pub fn to_wire(self) -> (bytes: [u8; 4])
        ensures
            bytes@ == be32(self.0),
    {
        u32_to_be(self.0)
    }

    /// The encoding that four bytes from the wire name.
    pub fn from_wire(bytes: [u8; 4]) -> (encoding: Self)
        ensures
            encoding.0 == from_be32(bytes@),
    {
        EncodingType(u32_from_be(bytes))
    }
}

#[derive(Debug, Copy, Clone)]
pub struct FramebufferUpdateRequest {
    pub message_type: u8,
    pub incremental: u8,
    pub x: u16,
    pub y: u16,
    pub width: u16,
    pub height: u16,
}

#[derive(Debug, Copy, Clone)]
pub struct KeyEvent {
    pub message_type: u8,
    pub down_flag: u8,
    pub padding: [u8; 2],
    pub key: u32,
}

/// Button mask of a pointer event: one bit for each button, the left
/// button in bit 0.
#[derive(Debug, Copy, Clone)]
pub struct PointerEventButtonMask(pub u8);

impl PointerEventButtonMask {
    pub const LEFT: u8 = 0;

    pub const MIDDLE: u8 = 1;

    pub const RIGHT: u8 = 2;

    pub const SCROLL_UP: u8 = 3;

    pub const SCROLL_DOWN: u8 = 4;

    pub const SCROLL_LEFT: u8 = 5;

    pub const SCROLL_RIGHT: u8 = 6;

    pub const BUTTON8: u8 = 7;

    /// The mask with no button pressed.
    pub fn new() -> (mask: Self)
        ensures
            mask.0 == 0,
    {
        PointerEventButtonMask(0)
    }

    pub fn from_bits(bits: u8) -> (mask: Self)
        ensures
            mask.0 == bits,
    {
        PointerEventButtonMask(bits)
    }

    pub fn into_bits(self) -> (bits: u8)
        ensures
            bits == self.0,
    {
        self.0
    }

    #[verifier::allow_in_spec]
    pub fn left(self) -> bool
        returns
            bit8(self.0, Self::LEFT),
    {
        get_bit8(self.0, Self::LEFT)
    }

    #[verifier::allow_in_spec]
    pub fn middle(self) -> bool
        returns
            bit8(self.0, Self::MIDDLE),
    {
        get_bit8(self.0, Self::MIDDLE)
    }

    #[verifier::allow_in_spec]
    pub fn right(self) -> bool
        returns
            bit8(self.0, Self::RIGHT),
    {
        get_bit8(self.0, Self::RIGHT)
    }

    #[verifier::allow_in_spec]
    pub fn scroll_up(self) -> bool
        returns
            bit8(self.0, Self::SCROLL_UP),
    {
        get_bit8(self.0, Self::SCROLL_UP)
    }

    #[verifier::allow_in_spec]
    pub fn scroll_down(self) -> bool
        returns
            bit8(self.0, Self::SCROLL_DOWN),
    {
        get_bit8(self.0, Self::SCROLL_DOWN)
    }

    #[verifier::allow_in_spec]
    pub fn scroll_left(self) -> bool
        returns
            bit8(self.0, Self::SCROLL_LEFT),
    {
        get_bit8(self.0, Self::SCROLL_LEFT)
    }

    #[verifier::allow_in_spec]
    pub fn scroll_right(self) -> bool
        returns
            bit8(self.0, Self::SCROLL_RIGHT),
    {
        get_bit8(self.0, Self::SCROLL_RIGHT)
    }

    #[verifier::allow_in_spec]
    pub fn button8(self) -> bool
        returns
            bit8(self.0, Self::BUTTON8),
    {
        get_bit8(self.0, Self::BUTTON8)
    }

    pub fn with_left(self, value: bool) -> (mask: Self)
        ensures
            mask.0 == with_bit8(self.0, Self::LEFT, value),
            one_bit_written8(self.0, mask.0, Self::LEFT, value),
    {
        PointerEventButtonMask(set_bit8(self.0, Self::LEFT, value))
    }

    pub fn with_middle(self, value: bool) -> (mask: Self)
        ensures
            mask.0 == with_bit8(self.0, Self::MIDDLE, value),
            one_bit_written8(self.0, mask.0, Self::MIDDLE, value),
    {
        PointerEventButtonMask(set_bit8(self.0, Self::MIDDLE, value))
    }

    pub fn with_right(self, value: bool) -> (mask: Self)
        ensures
            mask.0 == with_bit8(self.0, Self::RIGHT, value),
            one_bit_written8(self.0, mask.0, Self::RIGHT, value),
    {
        PointerEventButtonMask(set_bit8(self.0, Self::RIGHT, value))
    }

    pub fn with_scroll_up(self, value: bool) -> (mask: Self)
        ensures
            mask.0 == with_bit8(self.0, Self::SCROLL_UP, value),
            one_bit_written8(self.0, mask.0, Self::SCROLL_UP, value),
    {
        PointerEventButtonMask(set_bit8(self.0, Self::SCROLL_UP, value))
    }

    pub fn with_scroll_down(self, value: bool) -> (mask: Self)
        ensures
            mask.0 == with_bit8(self.0, Self::SCROLL_DOWN, value),
            one_bit_written8(self.0, mask.0, Self::SCROLL_DOWN, value),
    {
        PointerEventButtonMask(set_bit8(self.0, Self::SCROLL_DOWN, value))
    }

    pub fn with_scroll_left(self, value: bool) -> (mask: Self)
        ensures
            mask.0 == with_bit8(self.0, Self::SCROLL_LEFT, value),
            one_bit_written8(self.0, mask.0, Self::SCROLL_LEFT, value),
    {
        PointerEventButtonMask(set_bit8(self.0, Self::SCROLL_LEFT, value))
    }

    pub fn with_scroll_right(self, value: bool) -> (mask: Self)
        ensures
            mask.0 == with_bit8(self.0, Self::SCROLL_RIGHT, value),
            one_bit_written8(self.0, mask.0, Self::SCROLL_RIGHT, value),
    {
        PointerEventButtonMask(set_bit8(self.0, Self::SCROLL_RIGHT, value))
    }

    pub fn with_button8(self, value: bool) -> (mask: Self)
        ensures
            mask.0 == with_bit8(self.0, Self::BUTTON8, value),
            one_bit_written8(self.0, mask.0, Self::BUTTON8, value),
    {
        PointerEventButtonMask(set_bit8(self.0, Self::BUTTON8, value))
    }
}

#[derive(Debug, Copy, Clone)]
pub struct PointerEvent {
    pub message_type: u8,
    pub button_mask: PointerEventButtonMask,
    pub x: u16,
    pub y: u16,
}

#[derive(Debug, Copy, Clone)]
pub struct ClientCutText {
    pub message_type: u8,
    pub padding: [u8; 3],
    pub length: u32,
    // text: [u8; N],
}

// Server to client messages
pub const SC_MESSAGE_TYPE_FRAMEBUFFER_UPDATE: u8 = 0;

pub const SC_MESSAGE_TYPE_SET_COLOR_MAP_ENTRIES: u8 = 1;

pub const SC_MESSAGE_TYPE_BELL: u8 = 2;

pub const SC_MESSAGE_TYPE_SERVER_CUT_TEXT: u8 = 3;

#[derive(Debug, Copy, Clone)]
pub struct FramebufferUpdate {
    pub message_type: u8,
    pub padding: u8,
    pub rectangle_count: u16,
    // rectangles: [Rectangle; N],
}

#[derive(Debug, Copy, Clone)]
pub struct Rectangle {
    pub x: u16,
    pub y: u16,
    pub width: u16,
    pub height: u16,
    pub encoding_type: u32,
    // data: ...
}

#[derive(Debug, Copy, Clone)]
pub struct SetColorMapEntries {
    pub message_type: u8,
    pub padding: u8,
    pub first_color: u16,
    pub color_count: u16,
    // colors: [Color; N],
}

#[derive(Debug, Copy, Clone)]
pub struct Color {
    pub red: u16,
    pub green: u16,
    pub blue: u16,
}

#[derive(Debug, Copy, Clone)]
pub struct Bell {
    pub message_type: u8,
}

#[derive(Debug, Copy, Clone)]
pub struct ServerCutText {
    pub message_type: u8,
    pub padding: [u8; 3],
    pub length: u32,
    // text: [u8; N],
}

#[derive(Debug, Copy, Clone)]
pub struct QemuMessageHeader {
    pub message_type: u8,
    pub submessage_type: u8,
}

pub const QEMU_MESSAGE_EXTENDED_KEY_EVENT: u8 = 0;

#[derive(Debug, Copy, Clone)]
pub struct QemuExtendedKeyEvent {
    pub message_type: u8,
    pub submessage_type: u8,
    pub down_flag: u16,
    pub keysym: u32,
    pub keycode: u32,
}

} // verus!
