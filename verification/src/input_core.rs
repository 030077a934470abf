//! Input events as the devices take them.

use vstd::prelude::*;
use crate::bits::{bit8, get_bit8, one_bit_written8, set_bit8, with_bit8};

verus! {

/// Keyboard or mouse input data.
#[derive(Debug, Copy, Clone)]
pub enum InputData {
    /// A keystroke.
    Keyboard(KeyboardData),
    /// A mouse move or click.
    Mouse(MouseData),
}

/// A mouse input event.
#[derive(Debug, Copy, Clone)]
pub struct MouseData {
    /// A bitmask of the buttons that are pressed.
    pub button_mask: MouseDataButtonMask,
    /// The absolute X location.
    pub x: u16,
    /// The absolute Y location.
    pub y: u16,
}

/// A keyboard input event.
#[derive(Debug, Copy, Clone)]
pub struct KeyboardData {
    /// Keyboard code.
    pub code: u16,
    /// True if this is a "make", false if it is a "break".
    pub make: bool,
}

/// An input handle for input multiplexed over an input channel serving
/// multiple devices.
#[derive(Debug, Copy, Clone)]
pub struct MultiplexedInputHandle {
    /// The elevation of this device on the input stack. The active device
    /// with the highest elevation will receive the input.
    ///
    /// Each device must have a distinct elevation.
    pub elevation: usize,
}

/// Button mask of a [`MouseData`]: one bit for each button, the left button
/// in bit 0.
#[derive(Debug, Copy, Clone)]
pub struct MouseDataButtonMask(pub u8);

impl MouseDataButtonMask {
    pub const LEFT: u8 = 0;

    pub const MIDDLE: u8 = 1;

    pub const RIGHT: u8 = 2;

    pub const SCROLL_UP: u8 = 3;

    pub const SCROLL_DOWN: u8 = 4;

    pub const SCROLL_LEFT: u8 = 5;

    pub const SCROLL_RIGHT: u8 = 6;

    pub const BUTTON8: u8 = 7;

    /// The mask with no button pressed.
    pub fn new() -> (mask: Self)
        ensures
            mask.0 == 0,
    {
        MouseDataButtonMask(0)
    }

    pub fn from_bits(bits: u8) -> (mask: Self)
        ensures
            mask.0 == bits,
    {
        MouseDataButtonMask(bits)
    }

    pub fn into_bits(self) -> (bits: u8)
        ensures
            bits == self.0,
    {
        self.0
    }

    #[verifier::allow_in_spec]
    pub fn left(self) -> bool
        returns
            bit8(self.0, Self::LEFT),
    {
        get_bit8(self.0, Self::LEFT)
    }

    #[verifier::allow_in_spec]
    pub fn middle(self) -> bool
        returns
            bit8(self.0, Self::MIDDLE),
    {
        get_bit8(self.0, Self::MIDDLE)
    }

    #[verifier::allow_in_spec]
    pub fn right(self) -> bool
        returns
            bit8(self.0, Self::RIGHT),
    {
        get_bit8(self.0, Self::RIGHT)
    }

    #[verifier::allow_in_spec]
    pub fn scroll_up(self) -> bool
        returns
            bit8(self.0, Self::SCROLL_UP),
    {
        get_bit8(self.0, Self::SCROLL_UP)
    }

    #[verifier::allow_in_spec]
    pub fn scroll_down(self) -> bool
        returns
            bit8(self.0, Self::SCROLL_DOWN),
    {
        get_bit8(self.0, Self::SCROLL_DOWN)
    }

    #[verifier::allow_in_spec]
    pub fn scroll_left(self) -> bool
        returns
            bit8(self.0, Self::SCROLL_LEFT),
    {
        get_bit8(self.0, Self::SCROLL_LEFT)
    }

    #[verifier::allow_in_spec]
    pub fn scroll_right(self) -> bool
        returns
            bit8(self.0, Self::SCROLL_RIGHT),
    {
        get_bit8(self.0, Self::SCROLL_RIGHT)
    }

    #[verifier::allow_in_spec]
    pub fn button8(self) -> bool
        returns
            bit8(self.0, Self::BUTTON8),
    {
        get_bit8(self.0, Self::BUTTON8)
    }

    pub fn with_left(self, value: bool) -> (mask: Self)
        ensures
            mask.0 == with_bit8(self.0, Self::LEFT, value),
            one_bit_written8(self.0, mask.0, Self::LEFT, value),
    {
        MouseDataButtonMask(set_bit8(self.0, Self::LEFT, value))
    }

    pub fn with_middle(self, value: bool) -> (mask: Self)
        ensures
            mask.0 == with_bit8(self.0, Self::MIDDLE, value),
            one_bit_written8(self.0, mask.0, Self::MIDDLE, value),
    {
        MouseDataButtonMask(set_bit8(self.0, Self::MIDDLE, value))
    }

    pub fn with_right(self, value: bool) -> (mask: Self)
        ensures
            mask.0 == with_bit8(self.0, Self::RIGHT, value),
            one_bit_written8(self.0, mask.0, Self::RIGHT, value),
    {
        MouseDataButtonMask(set_bit8(self.0, Self::RIGHT, value))
    }

    pub fn with_scroll_up(self, value: bool) -> (mask: Self)
        ensures
            mask.0 == with_bit8(self.0, Self::SCROLL_UP, value),
            one_bit_written8(self.0, mask.0, Self::SCROLL_UP, value),
    {
        MouseDataButtonMask(set_bit8(self.0, Self::SCROLL_UP, value))
    }

    pub fn with_scroll_down(self, value: bool) -> (mask: Self)
        ensures
            mask.0 == with_bit8(self.0, Self::SCROLL_DOWN, value),
            one_bit_written8(self.0, mask.0, Self::SCROLL_DOWN, value),
    {
        MouseDataButtonMask(set_bit8(self.0, Self::SCROLL_DOWN, value))
    }

    pub fn with_scroll_left(self, value: bool) -> (mask: Self)
        ensures
            mask.0 == with_bit8(self.0, Self::SCROLL_LEFT, value),
            one_bit_written8(self.0, mask.0, Self::SCROLL_LEFT, value),
    {
        MouseDataButtonMask(set_bit8(self.0, Self::SCROLL_LEFT, value))
    }

    pub fn with_scroll_right(self, value: bool) -> (mask: Self)
        ensures
            mask.0 == with_bit8(self.0, Self::SCROLL_RIGHT, value),
            one_bit_written8(self.0, mask.0, Self::SCROLL_RIGHT, value),
    {
        MouseDataButtonMask(set_bit8(self.0, Self::SCROLL_RIGHT, value))
    }

    pub fn with_button8(self, value: bool) -> (mask: Self)
        ensures
            mask.0 == with_bit8(self.0, Self::BUTTON8, value),
            one_bit_written8(self.0, mask.0, Self::BUTTON8, value),
    {
        MouseDataButtonMask(set_bit8(self.0, Self::BUTTON8, value))
    }
}

} // verus!
