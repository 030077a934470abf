use chipset_devices::input_core::{MouseData, MouseDataButtonMask};
use chipset_devices::ps2mouse::{
    MousePacketHeader, Ps2Mouse, Ps2MouseCommand, SavedState, ACKNOWLEDGE_COMMAND, DEVICE_ID,
    MOUSE_POLL_LIMIT, MOUSE_QUEUE_CAPACITY, SELF_TEST_COMPLETE,
};
use chipset_devices::save_restore::SaveRestore;

fn drain(mouse: &mut Ps2Mouse) -> Vec<u8> {
    let mut out = Vec::new();
    while let Some(byte) = mouse.output() {
        out.push(byte);
    }
    out
}

fn at(x: u16, y: u16) -> MouseData {
    MouseData { button_mask: MouseDataButtonMask::new(), x, y }
}

fn active_mouse() -> Ps2Mouse {
    let mut mouse = Ps2Mouse::new();
    mouse.input(Ps2MouseCommand::ENABLE_DATA_REPORTING);
    assert_eq!(mouse.output(), Some(ACKNOWLEDGE_COMMAND));
    mouse
}

#[test]
fn new_mouse_has_nothing_to_read() {
    let mut mouse = Ps2Mouse::new();
    assert_eq!(mouse.output(), None);
    assert!(mouse.wants_input());
}

#[test]
fn enable_then_motion_gives_ack_and_packet() {
    let mut mouse = Ps2Mouse::new();
    mouse.input(Ps2MouseCommand::ENABLE_DATA_REPORTING);
    assert_eq!(mouse.poll(&[at(32, 16)]), 1);
    assert_eq!(drain(&mut mouse), vec![0xFA, 0x28, 0x02, 0xFF]);
}

#[test]
fn motion_packet_header_fields() {
    let mut mouse = active_mouse();
    assert_eq!(mouse.poll(&[at(32, 16)]), 1);
    let header = MousePacketHeader::from_bits(mouse.output().unwrap());
    assert!(header.always_one());
    assert!(!header.x_sign());
    assert!(header.y_sign());
    assert!(!header.button_left());
    assert!(!header.button_right());
    assert!(!header.button_middle());
    assert!(!header.x_overflow());
    assert!(!header.y_overflow());
}

#[test]
fn motion_is_relative_to_the_last_reported_position() {
    let mut mouse = active_mouse();
    assert_eq!(mouse.poll(&[at(160, 160), at(0, 320)]), 2);
    // from (0, 0) to (160, 160): dx = 10, dy = -10
    // from (160, 160) to (0, 320): dx = -10, dy = -10
    assert_eq!(drain(&mut mouse), vec![0x28, 10, 0xF6, 0x38, 0xF6, 0xF6]);
}

#[test]
fn small_motion_rounds_toward_zero_and_has_no_sign() {
    let mut mouse = active_mouse();
    assert_eq!(mouse.poll(&[at(100, 100), at(85, 115)]), 2);
    // the second move is (-15, +15) in position: both deltas scale to 0
    let bytes = drain(&mut mouse);
    assert_eq!(&bytes[3..], &[0x08, 0x00, 0x00]);
}

#[test]
fn large_motion_keeps_the_low_byte_only() {
    let mut mouse = active_mouse();
    assert_eq!(mouse.poll(&[at(65535, 0)]), 1);
    // 65535 / 16 = 4095 = 0x0FFF
    assert_eq!(drain(&mut mouse), vec![0x08, 0xFF, 0x00]);
    assert_eq!(mouse.poll(&[at(0, 0)]), 1);
    // -4095 = ...F001
    assert_eq!(drain(&mut mouse), vec![0x18, 0x01, 0x00]);
}

#[test]
fn buttons_appear_in_the_header() {
    let mut mouse = active_mouse();
    let left = MouseData { button_mask: MouseDataButtonMask::new().with_left(true), x: 0, y: 0 };
    let middle =
        MouseData { button_mask: MouseDataButtonMask::new().with_middle(true), x: 0, y: 0 };
    let right = MouseData { button_mask: MouseDataButtonMask::new().with_right(true), x: 0, y: 0 };
    let all = MouseData { button_mask: MouseDataButtonMask::from_bits(0xFF), x: 0, y: 0 };
    assert_eq!(mouse.poll(&[left, middle, right, all]), 4);
    let bytes = drain(&mut mouse);
    assert_eq!(bytes[0], 0x09);
    assert_eq!(bytes[3], 0x0C);
    assert_eq!(bytes[6], 0x0A);
    assert_eq!(bytes[9], 0x0F);
}

#[test]
fn events_are_dropped_while_reporting_is_off() {
    let mut mouse = Ps2Mouse::new();
    assert_eq!(mouse.poll(&[at(100, 100), at(200, 200)]), 2);
    assert_eq!(mouse.output(), None);
    // the position was not tracked: the next delta is taken from (0, 0)
    mouse.input(Ps2MouseCommand::ENABLE_DATA_REPORTING);
    assert_eq!(mouse.poll(&[at(16, 0)]), 1);
    assert_eq!(drain(&mut mouse), vec![0xFA, 0x08, 0x01, 0x00]);
}

#[test]
fn disable_stops_reporting() {
    let mut mouse = active_mouse();
    mouse.input(Ps2MouseCommand::DISABLE_DATA_REPORTING);
    assert_eq!(mouse.poll(&[at(100, 100)]), 1);
    assert_eq!(drain(&mut mouse), vec![0xFA]);
}

#[test]
fn poll_stops_when_the_queue_has_no_room() {
    let mut mouse = active_mouse();
    let events = vec![at(0, 0); 30];
    // 21 packets make 63 bytes; the queue is below 61 bytes before each.
    assert_eq!(mouse.poll(&events), 21);
    assert!(!mouse.wants_input());
    assert_eq!(mouse.poll(&events), 0);
    assert_eq!(drain(&mut mouse).len(), 63);
    assert!(mouse.wants_input());
}

#[test]
fn poll_limit_leaves_room_for_a_packet_and_a_byte() {
    assert_eq!(MOUSE_POLL_LIMIT + 3 + 1, MOUSE_QUEUE_CAPACITY - 1);
}

#[test]
fn poll_with_no_event_does_nothing() {
    let mut mouse = active_mouse();
    assert_eq!(mouse.poll(&[]), 0);
    assert_eq!(mouse.output(), None);
}

#[test]
fn get_id_acknowledges_and_identifies() {
    let mut mouse = Ps2Mouse::new();
    mouse.input(Ps2MouseCommand::GET_ID);
    assert_eq!(drain(&mut mouse), vec![ACKNOWLEDGE_COMMAND, DEVICE_ID]);
}

#[test]
fn reset_command_reports_self_test_and_identity() {
    let mut mouse = Ps2Mouse::new();
    mouse.input(Ps2MouseCommand::RESET);
    assert_eq!(drain(&mut mouse), vec![ACKNOWLEDGE_COMMAND, SELF_TEST_COMPLETE, DEVICE_ID]);
    assert_eq!(drain(&mut mouse), Vec::<u8>::new());
}

#[test]
fn unknown_commands_are_acknowledged() {
    let mut mouse = Ps2Mouse::new();
    for command in [
        Ps2MouseCommand::SET_SCALING_1_1,
        Ps2MouseCommand::SET_SCALING_2_1,
        Ps2MouseCommand::STATUS,
        Ps2MouseCommand::SET_STREAM_MODE,
        Ps2MouseCommand::READ_DATA,
        Ps2MouseCommand::RESET_WRAP_MODE,
        Ps2MouseCommand::SET_WRAP_MODE,
        Ps2MouseCommand::SET_REMOTE_MODE,
        Ps2MouseCommand::SET_DEFAULTS,
        0x00,
        0x42,
    ] {
        mouse.input(command);
        assert_eq!(drain(&mut mouse), vec![ACKNOWLEDGE_COMMAND]);
    }
}

#[test]
fn sample_rate_takes_one_data_byte_and_acknowledges_once() {
    let mut mouse = Ps2Mouse::new();
    mouse.input(Ps2MouseCommand::SET_SAMPLE_RATE);
    mouse.input(100);
    assert_eq!(drain(&mut mouse), vec![ACKNOWLEDGE_COMMAND]);
    // the next byte is a command again
    mouse.input(Ps2MouseCommand::GET_ID);
    assert_eq!(drain(&mut mouse), vec![ACKNOWLEDGE_COMMAND, DEVICE_ID]);
}

#[test]
fn resolution_takes_one_data_byte_and_acknowledges_once() {
    let mut mouse = Ps2Mouse::new();
    mouse.input(Ps2MouseCommand::SET_RESOLUTION);
    assert_eq!(mouse.output(), None);
    mouse.input(3);
    assert_eq!(drain(&mut mouse), vec![ACKNOWLEDGE_COMMAND]);
}

#[test]
fn data_byte_is_not_run_as_a_command() {
    let mut mouse = Ps2Mouse::new();
    mouse.input(Ps2MouseCommand::SET_SAMPLE_RATE);
    mouse.input(Ps2MouseCommand::RESET);
    assert_eq!(drain(&mut mouse), vec![ACKNOWLEDGE_COMMAND]);
    mouse.input(Ps2MouseCommand::SET_SAMPLE_RATE);
    mouse.input(Ps2MouseCommand::ENABLE_DATA_REPORTING);
    assert_eq!(drain(&mut mouse), vec![ACKNOWLEDGE_COMMAND]);
    // reporting is still off
    assert_eq!(mouse.poll(&[at(100, 100)]), 1);
    assert_eq!(mouse.output(), None);
}

#[test]
fn resend_repeats_the_last_byte_read() {
    let mut mouse = Ps2Mouse::new();
    mouse.input(Ps2MouseCommand::RESET);
    assert_eq!(mouse.output(), Some(ACKNOWLEDGE_COMMAND));
    assert_eq!(mouse.output(), Some(SELF_TEST_COMPLETE));
    mouse.input(Ps2MouseCommand::RESEND);
    mouse.input(Ps2MouseCommand::RESEND);
    mouse.input(Ps2MouseCommand::RESEND);
    // the identity byte is still queued in front of the three resent bytes
    assert_eq!(
        drain(&mut mouse),
        vec![DEVICE_ID, SELF_TEST_COMPLETE, SELF_TEST_COMPLETE, SELF_TEST_COMPLETE]
    );
}

#[test]
fn resend_before_any_read_sends_zero() {
    let mut mouse = Ps2Mouse::new();
    mouse.input(Ps2MouseCommand::RESEND);
    assert_eq!(drain(&mut mouse), vec![0]);
}

#[test]
fn full_queue_does_not_grow_and_ends_in_zero() {
    let mut mouse = Ps2Mouse::new();
    for _ in 0..MOUSE_QUEUE_CAPACITY {
        mouse.input(Ps2MouseCommand::STATUS);
    }
    let mut full = Ps2Mouse::new();
    for _ in 0..MOUSE_QUEUE_CAPACITY + 10 {
        full.input(Ps2MouseCommand::STATUS);
    }
    let exact = drain(&mut mouse);
    assert_eq!(exact.len(), MOUSE_QUEUE_CAPACITY);
    assert!(exact.iter().all(|byte| *byte == ACKNOWLEDGE_COMMAND));
    let over = drain(&mut full);
    assert_eq!(over.len(), MOUSE_QUEUE_CAPACITY);
    assert_eq!(over[MOUSE_QUEUE_CAPACITY - 1], 0);
    assert!(over[..MOUSE_QUEUE_CAPACITY - 1].iter().all(|byte| *byte == ACKNOWLEDGE_COMMAND));
}

#[test]
fn device_reset_returns_to_power_on() {
    let mut mouse = active_mouse();
    mouse.input(Ps2MouseCommand::SET_SAMPLE_RATE);
    mouse.input(Ps2MouseCommand::GET_ID);
    assert_eq!(mouse.poll(&[at(500, 500)]), 1);
    mouse.reset();
    assert_eq!(mouse.output(), None);
    // no command waits for data, reporting is off, the position is (0, 0)
    mouse.input(Ps2MouseCommand::RESEND);
    assert_eq!(drain(&mut mouse), vec![0]);
    assert_eq!(mouse.poll(&[at(500, 500)]), 1);
    assert_eq!(mouse.output(), None);
    mouse.input(Ps2MouseCommand::ENABLE_DATA_REPORTING);
    assert_eq!(mouse.poll(&[at(16, 0)]), 1);
    assert_eq!(drain(&mut mouse), vec![0xFA, 0x08, 0x01, 0x00]);
}

#[test]
fn save_then_restore_on_a_fresh_mouse_gives_the_same_output() {
    let mut mouse = active_mouse();
    mouse.input(Ps2MouseCommand::RESET);
    assert_eq!(mouse.poll(&[at(32, 16)]), 1);
    let saved = mouse.save().unwrap();
    assert_eq!(saved.output_buffer, vec![0xFA, 0xAA, 0x00, 0x28, 0x02, 0xFF]);

    let mut fresh = Ps2Mouse::new();
    fresh.restore(saved).unwrap();
    assert_eq!(drain(&mut fresh), drain(&mut mouse));
}

#[test]
fn save_leaves_the_mouse_as_it_is() {
    let mut mouse = Ps2Mouse::new();
    mouse.input(Ps2MouseCommand::GET_ID);
    let first = mouse.save().unwrap();
    let second = mouse.save().unwrap();
    assert_eq!(first.output_buffer, second.output_buffer);
    assert_eq!(drain(&mut mouse), vec![ACKNOWLEDGE_COMMAND, DEVICE_ID]);
}

#[test]
fn restore_replaces_the_queue() {
    let mut mouse = Ps2Mouse::new();
    mouse.input(Ps2MouseCommand::GET_ID);
    mouse.restore(SavedState { output_buffer: vec![1, 2, 3] }).unwrap();
    assert_eq!(drain(&mut mouse), vec![1, 2, 3]);
    mouse.restore(SavedState { output_buffer: Vec::new() }).unwrap();
    assert_eq!(mouse.output(), None);
}

#[test]
fn header_builders_set_single_bits() {
    assert_eq!(MousePacketHeader::new().into_bits(), 0);
    assert_eq!(MousePacketHeader::new().with_button_left(true).into_bits(), 0x01);
    assert_eq!(MousePacketHeader::new().with_button_right(true).into_bits(), 0x02);
    assert_eq!(MousePacketHeader::new().with_button_middle(true).into_bits(), 0x04);
    assert_eq!(MousePacketHeader::new().with_always_one(true).into_bits(), 0x08);
    assert_eq!(MousePacketHeader::new().with_x_sign(true).into_bits(), 0x10);
    assert_eq!(MousePacketHeader::new().with_y_sign(true).into_bits(), 0x20);
    assert_eq!(MousePacketHeader::new().with_x_overflow(true).into_bits(), 0x40);
    assert_eq!(MousePacketHeader::new().with_y_overflow(true).into_bits(), 0x80);
    assert_eq!(MousePacketHeader::from_bits(0xFF).with_y_sign(false).into_bits(), 0xDF);
}

#[test]
fn button_mask_fields() {
    let mask = MouseDataButtonMask::from_bits(0b1010_0101);
    assert!(mask.left());
    assert!(!mask.middle());
    assert!(mask.right());
    assert!(!mask.scroll_up());
    assert!(!mask.scroll_down());
    assert!(mask.scroll_left());
    assert!(!mask.scroll_right());
    assert!(mask.button8());
    assert_eq!(
        MouseDataButtonMask::new()
            .with_scroll_up(true)
            .with_scroll_down(true)
            .with_scroll_left(true)
            .with_scroll_right(true)
            .with_button8(true)
            .with_scroll_left(false)
            .into_bits(),
        0b1101_1000
    );
}
