//! PS/2 mouse.
//!
//! The guest writes command bytes and reads response bytes; the host feeds
//! absolute pointer positions, which leave as three-byte motion packets.
//! [`MouseModel`] is the device as a mathematical value, and every
//! operation of [`Ps2Mouse`] is stated as a step of that model.

use vstd::prelude::*;
use std::collections::VecDeque;
use crate::bits::{bit8, get_bit8, one_bit_written8, set_bit8, with_bit8};
use crate::input_core::{MouseData, MouseDataButtonMask};
use crate::save_restore::{RestoreError, SaveError, SaveRestore};

verus! {

/// A command byte of the guest. Any value may arrive; the named ones are
/// those of the PS/2 protocol.
#[derive(Debug, Copy, Clone)]
pub struct Ps2MouseCommand(pub u8);

impl Ps2MouseCommand {
    pub const SET_SCALING_1_1: u8 = 0xE6;

    pub const SET_SCALING_2_1: u8 = 0xE7;

    /// Takes one data byte.
    pub const SET_RESOLUTION: u8 = 0xE8;

    pub const STATUS: u8 = 0xE9;

    pub const SET_STREAM_MODE: u8 = 0xEA;

    pub const READ_DATA: u8 = 0xEB;

    pub const RESET_WRAP_MODE: u8 = 0xEC;

    pub const SET_WRAP_MODE: u8 = 0xEE;

    pub const SET_REMOTE_MODE: u8 = 0xF0;

    pub const GET_ID: u8 = 0xF2;

    /// Takes one data byte.
    pub const SET_SAMPLE_RATE: u8 = 0xF3;

    pub const ENABLE_DATA_REPORTING: u8 = 0xF4;

    pub const DISABLE_DATA_REPORTING: u8 = 0xF5;

    pub const SET_DEFAULTS: u8 = 0xF6;

    pub const RESEND: u8 = 0xFE;

    pub const RESET: u8 = 0xFF;
}

/// The byte that answers a command.
pub const ACKNOWLEDGE_COMMAND: u8 = 0xFA;

/// The byte that reports a passed self-test after a reset.
pub const SELF_TEST_COMPLETE: u8 = 0xAA;

/// The identity of a standard PS/2 mouse.
pub const DEVICE_ID: u8 = 0x00;

/// Length of the output queue up to which a response byte is still appended.
pub const MOUSE_BUFFER_SIZE: usize = 65;

/// The most bytes that the output queue holds once responses alone fill it.
pub const MOUSE_QUEUE_CAPACITY: usize = 66;

/// Length of the output queue from which on no input event is taken.
pub const MOUSE_POLL_LIMIT: usize = 61;

/// By how much a position delta is scaled down.
pub const MOTION_DIVISOR: u16 = 16;

/// First byte of a motion packet.
#[derive(Debug, Copy, Clone)]
pub struct MousePacketHeader(pub u8);

impl MousePacketHeader {
    pub const BUTTON_LEFT: u8 = 0;

    pub const BUTTON_RIGHT: u8 = 1;

    pub const BUTTON_MIDDLE: u8 = 2;

    pub const ALWAYS_ONE: u8 = 3;

    pub const X_SIGN: u8 = 4;

    pub const Y_SIGN: u8 = 5;

    pub const X_OVERFLOW: u8 = 6;

    pub const Y_OVERFLOW: u8 = 7;

    /// The header with every bit clear.
    pub fn new() -> (header: Self)
        ensures
            header.0 == 0,
    {
        MousePacketHeader(0)
    }

    pub fn from_bits(bits: u8) -> (header: Self)
        ensures
            header.0 == bits,
    {
        MousePacketHeader(bits)
    }

    pub fn into_bits(self) -> (bits: u8)
        ensures
            bits == self.0,
    {
        self.0
    }

    #[verifier::allow_in_spec]
    pub fn button_left(self) -> bool
        returns
            bit8(self.0, Self::BUTTON_LEFT),
    {
        get_bit8(self.0, Self::BUTTON_LEFT)
    }

    #[verifier::allow_in_spec]
    pub fn button_right(self) -> bool
        returns
            bit8(self.0, Self::BUTTON_RIGHT),
    {
        get_bit8(self.0, Self::BUTTON_RIGHT)
    }

    #[verifier::allow_in_spec]
    pub fn button_middle(self) -> bool
        returns
            bit8(self.0, Self::BUTTON_MIDDLE),
    {
        get_bit8(self.0, Self::BUTTON_MIDDLE)
    }

    #[verifier::allow_in_spec]
    pub fn always_one(self) -> bool
        returns
            bit8(self.0, Self::ALWAYS_ONE),
    {
        get_bit8(self.0, Self::ALWAYS_ONE)
    }

    #[verifier::allow_in_spec]
    pub fn x_sign(self) -> bool
        returns
            bit8(self.0, Self::X_SIGN),
    {
        get_bit8(self.0, Self::X_SIGN)
    }

    #[verifier::allow_in_spec]
    pub fn y_sign(self) -> bool
        returns
            bit8(self.0, Self::Y_SIGN),
    {
        get_bit8(self.0, Self::Y_SIGN)
    }

    #[verifier::allow_in_spec]
    pub fn x_overflow(self) -> bool
        returns
            bit8(self.0, Self::X_OVERFLOW),
    {
        get_bit8(self.0, Self::X_OVERFLOW)
    }

    #[verifier::allow_in_spec]
    pub fn y_overflow(self) -> bool
        returns
            bit8(self.0, Self::Y_OVERFLOW),
    {
        get_bit8(self.0, Self::Y_OVERFLOW)
    }

    pub fn with_button_left(self, value: bool) -> (header: Self)
        ensures
            header.0 == with_bit8(self.0, Self::BUTTON_LEFT, value),
            one_bit_written8(self.0, header.0, Self::BUTTON_LEFT, value),
    {
        MousePacketHeader(set_bit8(self.0, Self::BUTTON_LEFT, value))
    }

    pub fn with_button_right(self, value: bool) -> (header: Self)
        ensures
            header.0 == with_bit8(self.0, Self::BUTTON_RIGHT, value),
            one_bit_written8(self.0, header.0, Self::BUTTON_RIGHT, value),
    {
        MousePacketHeader(set_bit8(self.0, Self::BUTTON_RIGHT, value))
    }

    pub fn with_button_middle(self, value: bool) -> (header: Self)
        ensures
            header.0 == with_bit8(self.0, Self::BUTTON_MIDDLE, value),
            one_bit_written8(self.0, header.0, Self::BUTTON_MIDDLE, value),
    {
        MousePacketHeader(set_bit8(self.0, Self::BUTTON_MIDDLE, value))
    }

    pub fn with_always_one(self, value: bool) -> (header: Self)
        ensures
            header.0 == with_bit8(self.0, Self::ALWAYS_ONE, value),
            one_bit_written8(self.0, header.0, Self::ALWAYS_ONE, value),
    {
        MousePacketHeader(set_bit8(self.0, Self::ALWAYS_ONE, value))
    }

    pub fn with_x_sign(self, value: bool) -> (header: Self)
        ensures
            header.0 == with_bit8(self.0, Self::X_SIGN, value),
            one_bit_written8(self.0, header.0, Self::X_SIGN, value),
    {
        MousePacketHeader(set_bit8(self.0, Self::X_SIGN, value))
    }

    pub fn with_y_sign(self, value: bool) -> (header: Self)
        ensures
            header.0 == with_bit8(self.0, Self::Y_SIGN, value),
            one_bit_written8(self.0, header.0, Self::Y_SIGN, value),
    {
        MousePacketHeader(set_bit8(self.0, Self::Y_SIGN, value))
    }

    pub fn with_x_overflow(self, value: bool) -> (header: Self)
        ensures
            header.0 == with_bit8(self.0, Self::X_OVERFLOW, value),
            one_bit_written8(self.0, header.0, Self::X_OVERFLOW, value),
    {
        MousePacketHeader(set_bit8(self.0, Self::X_OVERFLOW, value))
    }

    pub fn with_y_overflow(self, value: bool) -> (header: Self)
        ensures
            header.0 == with_bit8(self.0, Self::Y_OVERFLOW, value),
            one_bit_written8(self.0, header.0, Self::Y_OVERFLOW, value),
    {
        MousePacketHeader(set_bit8(self.0, Self::Y_OVERFLOW, value))
    }
}

/// A position delta scaled down by [`MOTION_DIVISOR`], rounded toward zero.
pub open spec fn scaled_delta(delta: int) -> int {
    if delta >= 0 {
        delta / (MOTION_DIVISOR as int)
    } else {
        -((-delta) / (MOTION_DIVISOR as int))
    }
}

/// The low eight bits of a number in two's complement.
pub open spec fn low_byte(value: int) -> u8 {
    (value % 0x100) as u8
}

/// The header byte of a motion packet: bit 3 is always set, bits 4 and 5
/// are the signs of the scaled deltas, bits 0 to 2 are the left, right and
/// middle button, and the overflow bits stay clear.
pub open spec fn packet_header(dx: int, dy: int, buttons: MouseDataButtonMask) -> u8 {
    ((if buttons.left() { 0x01int } else { 0 })
        + (if buttons.right() { 0x02int } else { 0 })
        + (if buttons.middle() { 0x04int } else { 0 })
        + 0x08
        + (if dx < 0 { 0x10int } else { 0 })
        + (if dy < 0 { 0x20int } else { 0 })) as u8
}

/// The three bytes that report a move from `(prev_x, prev_y)` to the
/// position of `input`: header, horizontal delta, vertical delta. The
/// horizontal delta is the new position less the old one. The vertical
/// delta is the old position less the new one, because the packet counts
/// upward and the position downward.
pub open spec fn motion_packet(prev_x: u16, prev_y: u16, input: MouseData) -> Seq<u8> {
    let dx = scaled_delta(input.x - prev_x);
    let dy = scaled_delta(prev_y - input.y);
    seq![packet_header(dx, dy, input.button_mask), low_byte(dx), low_byte(dy)]
}

/// The mouse as a mathematical value.
pub struct MouseModel {
    /// The command that still waits for its data byte.
    pub previous_command: Option<u8>,
    /// The response bytes that the guest has not read yet, oldest first.
    pub output_buffer: Seq<u8>,
    /// Whether motion is reported.
    pub active: bool,
    /// The byte that the guest read last.
    pub last_output_byte_read: u8,
    /// Horizontal position of the last reported event.
    pub prev_x: u16,
    /// Vertical position of the last reported event.
    pub prev_y: u16,
}

impl MouseModel {
    /// The mouse after power-on.
    pub open spec fn power_on() -> MouseModel {
        MouseModel {
            previous_command: None,
            output_buffer: Seq::empty(),
            active: false,
            last_output_byte_read: 0,
            prev_x: 0,
            prev_y: 0,
        }
    }

    /// Whether the output queue is within the capacity that responses alone
    /// never exceed.
    pub open spec fn within_capacity(self) -> bool {
        self.output_buffer.len() <= MOUSE_QUEUE_CAPACITY
    }

    /// Queues one response byte. A full queue does not grow: its last byte
    /// becomes 0, which tells the guest that a byte was lost.
    pub open spec fn push(self, value: u8) -> MouseModel {
        if self.output_buffer.len() <= MOUSE_BUFFER_SIZE {
            MouseModel { output_buffer: self.output_buffer.push(value), ..self }
        } else {
            MouseModel {
                output_buffer: self.output_buffer.update(self.output_buffer.len() - 1, 0),
                ..self
            }
        }
    }

    /// Whether `command` is followed by a data byte.
    pub open spec fn takes_data(command: u8) -> bool {
        command == Ps2MouseCommand::SET_SAMPLE_RATE || command == Ps2MouseCommand::SET_RESOLUTION
    }

    /// What running `command` does to the queue and to the reporting flag.
    /// A command that takes a data byte does nothing until that byte is
    /// there; it is then acknowledged once.
    pub open spec fn command(self, command: u8, data: Option<u8>) -> MouseModel {
        if Self::takes_data(command) {
            if data is Some {
                self.push(ACKNOWLEDGE_COMMAND)
            } else {
                self
            }
        } else if command == Ps2MouseCommand::ENABLE_DATA_REPORTING {
            MouseModel { active: true, ..self.push(ACKNOWLEDGE_COMMAND) }
        } else if command == Ps2MouseCommand::DISABLE_DATA_REPORTING {
            MouseModel { active: false, ..self.push(ACKNOWLEDGE_COMMAND) }
        } else if command == Ps2MouseCommand::GET_ID {
            self.push(ACKNOWLEDGE_COMMAND).push(DEVICE_ID)
        } else if command == Ps2MouseCommand::RESEND {
            self.push(self.last_output_byte_read)
        } else if command == Ps2MouseCommand::RESET {
            self.push(ACKNOWLEDGE_COMMAND).push(SELF_TEST_COMPLETE).push(DEVICE_ID)
        } else {
            self.push(ACKNOWLEDGE_COMMAND)
        }
    }

    /// The mouse after the guest wrote `input`. With a command waiting, the
    /// byte is that command's data, whatever its value; otherwise it is a
    /// command itself, which waits in turn if it takes a data byte.
    pub open spec fn input(self, input: u8) -> MouseModel {
        match self.previous_command {
            Some(command) => MouseModel { previous_command: None, ..self }.command(
                command,
                Some(input),
            ),
            None => MouseModel {
                previous_command: if Self::takes_data(input) {
                    Some(input)
                } else {
                    None
                },
                ..self.command(input, None)
            },
        }
    }

    /// The byte that a read returns, if the queue holds one.
    pub open spec fn output_byte(self) -> Option<u8> {
        if self.output_buffer.len() > 0 {
            Some(self.output_buffer[0])
        } else {
            None
        }
    }

    /// The mouse after a read by the guest.
    pub open spec fn output(self) -> MouseModel {
        if self.output_buffer.len() > 0 {
            MouseModel {
                output_buffer: self.output_buffer.skip(1),
                last_output_byte_read: self.output_buffer[0],
                ..self
            }
        } else {
            self
        }
    }

    /// Whether the queue has room enough for an input event to be taken.
    pub open spec fn wants_input(self) -> bool {
        self.output_buffer.len() < MOUSE_POLL_LIMIT
    }

    /// The mouse after one input event was taken. While reporting is off
    /// the event is dropped and the position is not tracked.
    pub open spec fn deliver(self, input: MouseData) -> MouseModel {
        if self.active {
            MouseModel {
                output_buffer: self.output_buffer + motion_packet(self.prev_x, self.prev_y, input),
                prev_x: input.x,
                prev_y: input.y,
                ..self
            }
        } else {
            self
        }
    }

    /// How many of the pending `events` a poll takes: one after another for
    /// as long as the queue has room.
    pub open spec fn poll_count(self, events: Seq<MouseData>) -> nat
        decreases events.len(),
    {
        if events.len() == 0 || !self.wants_input() {
            0
        } else {
            1 + self.deliver(events[0]).poll_count(events.skip(1))
        }
    }

    /// The mouse after a poll with `events` pending.
    pub open spec fn poll(self, events: Seq<MouseData>) -> MouseModel
        decreases events.len(),
    {
        if events.len() == 0 || !self.wants_input() {
            self
        } else {
            self.deliver(events[0]).poll(events.skip(1))
        }
    }

    /// What a save keeps of the mouse: the queued bytes, oldest first.
    pub open spec fn save(self) -> Seq<u8> {
        self.output_buffer
    }

    /// The mouse after a restore: the saved bytes are the queue, and the
    /// rest is as it was.
    pub open spec fn restore(self, saved: Seq<u8>) -> MouseModel {
        MouseModel { output_buffer: saved, ..self }
    }
}

/// The header byte that the builders of [`MousePacketHeader`] assemble is
/// the one that [`packet_header`] names.
proof fn lemma_header_bits(x_sign: bool, y_sign: bool, left: bool, middle: bool, right: bool)
    by (bit_vector)
    ensures
        with_bit8(
            with_bit8(
                with_bit8(
                    with_bit8(with_bit8(with_bit8(0u8, 3u8, true), 4u8, x_sign), 5u8, y_sign),
                    0u8,
                    left,
                ),
                2u8,
                middle,
            ),
            1u8,
            right,
        ) == (if left { 0x01u8 } else { 0u8 }) + (if right { 0x02u8 } else { 0u8 }) + (if middle {
            0x04u8
        } else {
            0u8
        }) + 0x08u8 + (if x_sign { 0x10u8 } else { 0u8 }) + (if y_sign { 0x20u8 } else { 0u8 }),
{
}

/// One scaled delta of a motion packet: whether it is negative, and its low
/// byte. `from` and `to` are the two positions in the order in which the
/// delta subtracts them.
fn delta_byte(to: u16, from: u16) -> (out: (bool, u8))
    ensures
        out.0 == (scaled_delta(to - from) < 0),
        out.1 == low_byte(scaled_delta(to - from)),
{
    if to >= from {
        let quotient: u16 = (to - from) / MOTION_DIVISOR;
        (false, (quotient % 0x100) as u8)
    } else {
        let quotient: u16 = (from - to) / MOTION_DIVISOR;
        let low: u16 = quotient % 0x100;
        (quotient > 0, ((0x100 - low) % 0x100) as u8)
    }
}

struct MouseState {
    previous_command: Option<Ps2MouseCommand>,
    output_buffer: VecDeque<u8>,
    active: bool,
    last_output_byte_read: u8,
    prev_x: u16,
    prev_y: u16,
}

impl MouseState {
    fn new() -> (state: Self)
        ensures
            state@ == MouseModel::power_on(),
    {
        Self {
            previous_command: None,
            output_buffer: VecDeque::new(),
            active: false,
            last_output_byte_read: 0,
            prev_x: 0,
            prev_y: 0,
        }
    }
}

impl View for MouseState {
    type V = MouseModel;

    closed spec fn view(&self) -> MouseModel {
        MouseModel {
            previous_command: match self.previous_command {
                Some(command) => Some(command.0),
                None => None,
            },
            output_buffer: self.output_buffer@,
            active: self.active,
            last_output_byte_read: self.last_output_byte_read,
            prev_x: self.prev_x,
            prev_y: self.prev_y,
        }
    }
}

/// A PS/2 mouse: the command and response channel of the guest, and the
/// motion packets that input events turn into.
pub struct Ps2Mouse {
    state: MouseState,
}

impl View for Ps2Mouse {
    type V = MouseModel;

    closed spec fn view(&self) -> MouseModel {
        self.state@
    }
}

/// What a save of the mouse holds.
pub struct SavedState {
    /// The response bytes that the guest had not read, oldest first.
    pub output_buffer: Vec<u8>,
}

impl Ps2Mouse {
    /// A mouse after power-on. The source of its input events stays with
    /// the host, which hands the events to [`Ps2Mouse::poll`].
    pub fn new() -> (mouse: Self)
        ensures
            mouse@ == MouseModel::power_on(),
    {
        Self { state: MouseState::new() }
    }

    /// Puts every part of the mouse back to its power-on value.
    pub fn reset(&mut self)
        ensures
            final(self)@ == MouseModel::power_on(),
    {
        self.state = MouseState::new();
    }

    /// Whether a poll would take an input event now. The host asks before
    /// it pulls an event from its source, so that none is lost.
    pub fn wants_input(&self) -> (wanted: bool)
        ensures
            wanted == self@.wants_input(),
    {
        self.state.output_buffer.len() < MOUSE_POLL_LIMIT
    }

    /// Takes pending input events, oldest first, for as long as the output
    /// queue has room, and queues a motion packet for each while reporting
    /// is on. Returns how many events were taken; the others stay with the
    /// caller.
    pub fn poll(&mut self, events: &[MouseData]) -> (taken: usize)
        ensures
            final(self)@ == old(self)@.poll(events@),
            taken == old(self)@.poll_count(events@),
            taken <= events@.len(),
    {
        let mut taken: usize = 0;
        assert(events@.skip(0) == events@);
        while taken < events.len() && self.state.output_buffer.len() < MOUSE_POLL_LIMIT
            invariant
                taken <= events@.len(),
                old(self)@.poll(events@) == self@.poll(events@.skip(taken as int)),
                old(self)@.poll_count(events@) == taken + self@.poll_count(
                    events@.skip(taken as int),
                ),
            decreases events@.len() - taken,
        {
            let input = events[taken];
            proof {
                assert(events@.skip(taken as int).skip(1) == events@.skip(taken + 1));
            }
            if self.state.active {
                let (x_sign, dx) = delta_byte(input.x, self.state.prev_x);
                let (y_sign, dy) = delta_byte(self.state.prev_y, input.y);
                let header = MousePacketHeader::new().with_always_one(true).with_x_sign(
                    x_sign,
                ).with_y_sign(y_sign).with_button_left(input.button_mask.left()).with_button_middle(
                    input.button_mask.middle(),
                ).with_button_right(input.button_mask.right());
                proof {
                    lemma_header_bits(
                        x_sign,
                        y_sign,
                        input.button_mask.left(),
                        input.button_mask.middle(),
                        input.button_mask.right(),
                    );
                    assert(self.state.output_buffer@.push(header.0).push(dx).push(dy)
                        == self.state.output_buffer@ + motion_packet(
                        self.state.prev_x,
                        self.state.prev_y,
                        input,
                    ));
                }
                self.state.prev_x = input.x;
                self.state.prev_y = input.y;
                self.state.output_buffer.push_back(header.into_bits());
                self.state.output_buffer.push_back(dx);
                self.state.output_buffer.push_back(dy);
            }
            taken += 1;
        }
        taken
    }

    /// The oldest response byte, if there is one. The byte read is kept for
    /// a later resend.
    pub fn output(&mut self) -> (value: Option<u8>)
        ensures
            value == old(self)@.output_byte(),
            final(self)@ == old(self)@.output(),
    {
        let value = self.state.output_buffer.pop_front();
        match value {
            Some(byte) => {
                self.state.last_output_byte_read = byte;
            },
            None => {},
        }
        value
    }

    /// Takes one byte that the guest wrote: a command, or the data byte of
    /// the command before it.
    pub fn input(&mut self, input: u8)
        ensures
            final(self)@ == old(self)@.input(input),
    {
        let (command, data) = match self.state.previous_command.take() {
            Some(command) => (command, Some(input)),
            None => (Ps2MouseCommand(input), None),
        };
        if self.command(command, data).is_none() {
            self.state.previous_command = Some(command);
        }
    }

    fn push(&mut self, value: u8)
        ensures
            final(self)@ == old(self)@.push(value),
    {
        if self.state.output_buffer.len() <= MOUSE_BUFFER_SIZE {
            self.state.output_buffer.push_back(value);
        } else {
            // Indicate buffer overflow.
            let _ = self.state.output_buffer.pop_back();
            self.state.output_buffer.push_back(0);
            assert(self.state.output_buffer@ == old(self).state.output_buffer@.update(
                old(self).state.output_buffer@.len() - 1,
                0,
            ));
        }
    }

    fn command(&mut self, command: Ps2MouseCommand, data: Option<u8>) -> (done: Option<()>)
        ensures
            final(self)@ == old(self)@.command(command.0, data),
            done is None <==> MouseModel::takes_data(command.0) && data is None,
    {
        let code = command.0;
        if code == Ps2MouseCommand::SET_SAMPLE_RATE || code == Ps2MouseCommand::SET_RESOLUTION {
            if data.is_none() {
                return None;
            }
            self.push(ACKNOWLEDGE_COMMAND);
        } else if code == Ps2MouseCommand::ENABLE_DATA_REPORTING {
            self.push(ACKNOWLEDGE_COMMAND);
            self.state.active = true;
        } else if code == Ps2MouseCommand::DISABLE_DATA_REPORTING {
            self.push(ACKNOWLEDGE_COMMAND);
            self.state.active = false;
        } else if code == Ps2MouseCommand::GET_ID {
            self.push(ACKNOWLEDGE_COMMAND);
            self.push(DEVICE_ID);
        } else if code == Ps2MouseCommand::RESEND {
            let last = self.state.last_output_byte_read;
            self.push(last);
        } else if code == Ps2MouseCommand::RESET {
            self.push(ACKNOWLEDGE_COMMAND);
            self.push(SELF_TEST_COMPLETE);
            self.push(DEVICE_ID);
        } else {
            self.push(ACKNOWLEDGE_COMMAND);
        }
        Some(())
    }
}

impl SaveRestore for Ps2Mouse {
    type SavedState = SavedState;

    /// Saves the queued response bytes. A save never fails.
    fn save(&mut self) -> (saved: Result<SavedState, SaveError>)
        ensures
            final(self)@ == old(self)@,
            saved matches Ok(state) && state.output_buffer@ == old(self)@.save(),
    {
        let mut output_buffer: Vec<u8> = Vec::new();
        let mut index: usize = 0;
        while index < self.state.output_buffer.len()
            invariant
                index <= self.state.output_buffer@.len(),
                output_buffer@ == self.state.output_buffer@.take(index as int),
            decreases self.state.output_buffer@.len() - index,
        {
            output_buffer.push(self.state.output_buffer[index]);
            index += 1;
        }
        Ok(SavedState { output_buffer })
    }

    /// Makes the saved bytes the output queue. A restore never fails.
    fn restore(&mut self, state: SavedState) -> (restored: Result<(), RestoreError>)
        ensures
            restored is Ok,
            final(self)@ == old(self)@.restore(state.output_buffer@),
    {
        let SavedState { output_buffer } = state;
        let mut queue: VecDeque<u8> = VecDeque::new();
        let mut index: usize = 0;
        while index < output_buffer.len()
            invariant
                index <= output_buffer@.len(),
                queue@ == output_buffer@.take(index as int),
            decreases output_buffer@.len() - index,
        {
            queue.push_back(output_buffer[index]);
            index += 1;
        }
        assert(output_buffer@.take(index as int) == output_buffer@);
        self.state.output_buffer = queue;
        Ok(())
    }
}

} // verus!
