//! What holds of the PS/2 mouse in every state.

use vstd::prelude::*;
use crate::input_core::MouseData;
use crate::ps2mouse::{
    MouseModel, Ps2MouseCommand, ACKNOWLEDGE_COMMAND, MOUSE_QUEUE_CAPACITY,
};

verus! {

/// The mouse after `count` resend commands in a row.
pub open spec fn resent(mouse: MouseModel, count: nat) -> MouseModel
    decreases count,
{
    if count == 0 {
        mouse
    } else {
        resent(mouse, (count - 1) as nat).input(Ps2MouseCommand::RESEND)
    }
}

/// The mouse after `value` was queued `count` times.
pub open spec fn pushed(mouse: MouseModel, value: u8, count: nat) -> MouseModel
    decreases count,
{
    if count == 0 {
        mouse
    } else {
        pushed(mouse, value, (count - 1) as nat).push(value)
    }
}

/// Queueing a byte changes nothing but the queue. Below capacity the byte is
/// appended. At capacity the queue keeps its length and its other bytes,
/// and its last byte becomes 0.
pub proof fn lemma_push_never_grows_a_full_queue(mouse: MouseModel, value: u8)
    ensures
        mouse.push(value) == (MouseModel { output_buffer: mouse.push(value).output_buffer, ..mouse }),
        mouse.output_buffer.len() < MOUSE_QUEUE_CAPACITY ==> mouse.push(value).output_buffer
            == mouse.output_buffer.push(value),
        mouse.output_buffer.len() >= MOUSE_QUEUE_CAPACITY ==> {
            let before = mouse.output_buffer;
            let after = mouse.push(value).output_buffer;
            &&& after.len() == before.len()
            &&& after[after.len() - 1] == 0
            &&& forall|i: int| 0 <= i < before.len() - 1 ==> after[i] == before[i]
        },
        mouse.within_capacity() ==> mouse.push(value).within_capacity(),
{
}

/// A queue within capacity stays within capacity under every operation of
/// the mouse: a byte from the guest, a read by the guest, a poll for input
/// events.
pub proof fn lemma_queue_stays_within_capacity(
    mouse: MouseModel,
    input: u8,
    events: Seq<MouseData>,
)
    requires
        mouse.within_capacity(),
    ensures
        mouse.input(input).within_capacity(),
        mouse.output().within_capacity(),
        mouse.poll(events).within_capacity(),
        MouseModel::power_on().within_capacity(),
    decreases events.len(),
{
    if events.len() > 0 && mouse.wants_input() {
        lemma_queue_stays_within_capacity(mouse.deliver(events[0]), input, events.skip(1));
    }
}

/// A read hands out the oldest queued byte and remembers it; the bytes
/// behind it move up.
pub proof fn lemma_read_is_first_in_first_out(mouse: MouseModel)
    requires
        mouse.output_buffer.len() > 0,
    ensures
        mouse.output_byte() == Some(mouse.output_buffer[0]),
        mouse.output().last_output_byte_read == mouse.output_buffer[0],
        mouse.output().output_buffer == mouse.output_buffer.skip(1),
{
}

/// After a read that returned a byte, every resend queues that byte again,
/// however many resends follow one another with no read between them.
pub proof fn lemma_resend_repeats_last_read(mouse: MouseModel, count: nat)
    requires
        mouse.output_buffer.len() > 0,
        mouse.previous_command is None,
    ensures
        resent(mouse.output(), count) == pushed(mouse.output(), mouse.output_buffer[0], count),
    decreases count,
{
    if count > 0 {
        lemma_resend_repeats_last_read(mouse, (count - 1) as nat);
        lemma_pushed_keeps_the_rest(mouse.output(), mouse.output_buffer[0], (count - 1) as nat);
    }
}

/// Queueing bytes changes nothing but the queue.
pub proof fn lemma_pushed_keeps_the_rest(mouse: MouseModel, value: u8, count: nat)
    ensures
        pushed(mouse, value, count) == (MouseModel {
            output_buffer: pushed(mouse, value, count).output_buffer,
            ..mouse
        }),
    decreases count,
{
    if count > 0 {
        lemma_pushed_keeps_the_rest(mouse, value, (count - 1) as nat);
    }
}

/// A command that takes a data byte is answered once, when that byte has
/// arrived. The command alone queues nothing and waits; the next byte is
/// its data, whatever its value, and brings exactly one acknowledgement.
pub proof fn lemma_data_byte_is_acknowledged_once(mouse: MouseModel, command: u8, data: u8)
    requires
        mouse.previous_command is None,
        MouseModel::takes_data(command),
    ensures
        mouse.input(command) == (MouseModel { previous_command: Some(command), ..mouse }),
        mouse.input(command).input(data) == mouse.push(ACKNOWLEDGE_COMMAND),
        mouse.output_buffer.len() < MOUSE_QUEUE_CAPACITY ==> mouse.input(command).input(
            data,
        ).output_buffer == mouse.output_buffer.push(ACKNOWLEDGE_COMMAND),
{
}

/// A save followed by a restore on a mouse after power-on gives a mouse
/// with the same output queue, so the guest reads the same bytes in the
/// same order.
pub proof fn lemma_save_restore_round_trip(mouse: MouseModel)
    ensures
        MouseModel::power_on().restore(mouse.save()).output_buffer == mouse.output_buffer,
        MouseModel::power_on().restore(mouse.save()).output_byte() == mouse.output_byte(),
        MouseModel::power_on().restore(mouse.save()).output().output_buffer
            == mouse.output().output_buffer,
{
}

/// While reporting is off, a poll with room in the queue takes every
/// pending event and changes nothing.
pub proof fn lemma_poll_drops_events_while_inactive(mouse: MouseModel, events: Seq<MouseData>)
    requires
        !mouse.active,
        mouse.wants_input(),
    ensures
        mouse.poll(events) == mouse,
        mouse.poll_count(events) == events.len(),
    decreases events.len(),
{
    if events.len() > 0 {
        lemma_poll_drops_events_while_inactive(mouse, events.skip(1));
    }
}

/// A poll without room in the queue takes no event.
pub proof fn lemma_poll_waits_for_room(mouse: MouseModel, events: Seq<MouseData>)
    requires
        !mouse.wants_input(),
    ensures
        mouse.poll(events) == mouse,
        mouse.poll_count(events) == 0,
{
}

} // verus!
