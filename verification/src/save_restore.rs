//! Saving a device's volatile state and putting it back.

use vstd::prelude::*;

verus! {

/// Saved state of a device that has nothing to save.
#[derive(Debug, Copy, Clone)]
pub struct NoSavedState;

/// Why a device could not be saved.
#[derive(Debug, Copy, Clone)]
pub enum SaveError {
    /// The device does not support saving.
    NotSupported,
}

/// Why a saved state could not be put back.
#[derive(Debug, Copy, Clone)]
pub enum RestoreError {
    /// The device does not take saved state.
    SavedStateNotSupported,
    /// The saved state is not one that this device can have saved.
    InvalidSavedState,
}

/// A device whose volatile state can be captured and reinstated.
///
/// `restore` is meant to be called once, on a freshly built device, before
/// the device is started.
pub trait SaveRestore {
    /// What a save captures.
    type SavedState;

    /// Captures the volatile state.
    fn save(&mut self) -> Result<Self::SavedState, SaveError>;

    /// Reinstates a captured state.
    fn restore(&mut self, state: Self::SavedState) -> Result<(), RestoreError>;
}

} // verus!
