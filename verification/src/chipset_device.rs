//! What a chipset device offers to the dispatcher of guest accesses.
//!
//! A device always has a lifecycle. Beyond that it says which kinds of
//! access it serves, port I/O or memory-mapped I/O, and names for each kind
//! the address ranges that it claims. The dispatcher builds its routing
//! table from those ranges once and then hands each access to the handler
//! of the device that owns the address.

use vstd::prelude::*;

verus! {

/// Why a handler did not serve an access. Neither ends the device: the
/// dispatcher decides what the guest sees.
#[derive(Debug, Copy, Clone, PartialEq, Eq, Structural)]
pub enum IoError {
    /// The address lies in a claimed range and names no register that can
    /// be accessed in this direction.
    InvalidRegister,
    /// The register does not take an access of this many bytes.
    InvalidAccessSize,
}

/// How a handler ends.
pub type IoResult = Result<(), IoError>;

/// A range of I/O ports that a device claims, both ends included.
#[derive(Debug, Copy, Clone)]
pub struct PortRegion {
    pub name: &'static str,
    pub start: u16,
    pub end: u16,
}

/// A range of guest physical addresses that a device claims, both ends
/// included.
#[derive(Debug, Copy, Clone)]
pub struct MmioRegion {
    pub name: &'static str,
    pub start: u64,
    pub end: u64,
}

/// The lifecycle of a device.
pub trait ChangeDeviceState {
    /// The device becomes live. Called once, after construction or restore.
    fn start(&mut self);

    /// The device comes to rest, before teardown or a save.
    fn stop(&mut self);

    /// The device returns to its power-on state. What it was configured
    /// with when it was built stays.
    fn reset(&mut self);
}

/// A device of the chipset, with the kinds of access that it serves. A
/// device that answers `false` to both takes no guest access at all.
pub trait ChipsetDevice: ChangeDeviceState {
    /// Whether the device serves port I/O.
    fn supports_pio(&self) -> bool;

    /// Whether the device serves memory-mapped I/O.
    fn supports_mmio(&self) -> bool;
}

/// The port I/O side of a device.
pub trait PortIoIntercept {
    /// Serves a read of `data.len()` bytes at `io_port`.
    fn io_read(&mut self, io_port: u16, data: &mut [u8]) -> IoResult;

    /// Serves a write of `data` at `io_port`.
    fn io_write(&mut self, io_port: u16, data: &[u8]) -> IoResult;

    /// The port ranges that the device claims.
    fn get_static_regions(&self) -> &[PortRegion];
}

/// The memory-mapped I/O side of a device.
pub trait MmioIntercept {
    /// Serves a read of `data.len()` bytes at `addr`.
    fn mmio_read(&mut self, addr: u64, data: &mut [u8]) -> IoResult;

    /// Serves a write of `data` at `addr`.
    fn mmio_write(&mut self, addr: u64, data: &[u8]) -> IoResult;

    /// The address ranges that the device claims.
    fn get_static_mmio_regions(&self) -> &[MmioRegion];
}

} // verus!
