//! Device models of a virtual machine's chipset: what every device offers
//! to the dispatcher, a firmware configuration device and a PS/2 mouse.

pub mod bits;
pub mod endian;
pub mod input_core;
pub mod memory_layout;
pub mod ps2mouse;
pub mod ps2mouse_proofs;
pub mod save_restore;
pub mod chipset_device;
pub mod fw_cfg;
pub mod firmware_seabios;
pub mod loader;
pub mod vm_loaders;
pub mod fw_cfg_resources;
pub mod rfb;
pub mod xsync;
