//! The fence-gated record/submit/reuse protocol for command buffers.
//!
//! One routine serves both the one-shot setup submission and the recurring
//! per-frame draw submission, so the two paths can never diverge in their
//! fence discipline: wait on the reuse fence, reset it, reset and re-record
//! the command buffer, and submit with the same fence attached so the device
//! signals it when the work completes.

use vstd::prelude::*;
use crate::stub::CallView;
use crate::stub::CommandBuffer;
use crate::stub::CommandBufferState;
use crate::stub::Fence;
use crate::stub::FenceStatus;
use crate::stub::GpuCommand;
use crate::stub::StubDevice;

verus! {

/// Pipeline stage flag bit: the color-attachment-output stage, where the
/// per-frame draw submission waits for its acquired image.
pub const PIPELINE_STAGE_COLOR_ATTACHMENT_OUTPUT: u32 = 0x400;

/// The record entries of a command list, in order.
pub open spec fn recorded_calls(command_buffer: u64, commands: Seq<GpuCommand>) -> Seq<CallView> {
    commands.map(
        |i: int, c: GpuCommand| CallView::CommandRecorded { command_buffer, command: c },
    )
}

/// The exact driver-call sequence of one record/submit round.
pub open spec fn protocol_calls(
    command_buffer: u64,
    fence: u64,
    queue: u64,
    wait_semaphores: Seq<u64>,
    wait_stage_masks: Seq<u32>,
    signal_semaphores: Seq<u64>,
    commands: Seq<GpuCommand>,
) -> Seq<CallView> {
    seq![
        CallView::FenceWait { fence },
        CallView::FenceReset { fence },
        CallView::CommandBufferReset { command_buffer },
        CallView::CommandBufferBegin { command_buffer },
    ] + recorded_calls(command_buffer, commands) + seq![
        CallView::CommandBufferEnd { command_buffer },
        CallView::Submit {
            queue,
            command_buffer,
            fence,
            wait_semaphores,
            wait_stage_masks,
            signal_semaphores,
        },
    ]
}

/// An unbounded host wait on the fence returns rather than blocking forever:
/// the fence is either already signaled or the device owes it a signal.
pub open spec fn fence_wait_terminates(fence: Fence) -> bool {
    fence.status != FenceStatus::Unsignaled
}

/// One fence-gated record/submit round.
///
/// Blocks until the reuse fence says the device has finished all prior work
/// using this command buffer, resets the fence and the buffer, records the
/// given commands between a one-time-submit begin and an end, and submits to
/// the queue with the wait semaphores paired positionally with their stage
/// masks, the signal semaphores, and the reuse fence attached. The fence
/// leaves unsignaled with the submitted work pending on it, so the next
/// round's initial wait terminates once the device finishes.
pub fn record_submit_commandbuffer(
    device: &mut StubDevice,
    command_buffer: &mut CommandBuffer,
    command_buffer_reuse_fence: &mut Fence,
    submit_queue: u64,
    wait_semaphores: &Vec<u64>,
    signal_semaphores: &Vec<u64>,
    wait_mask: &Vec<u32>,
    record_commands: &Vec<GpuCommand>,
)
    requires
        old(device).wf(),
        old(device).is_live(old(command_buffer_reuse_fence).handle),
        fence_wait_terminates(*old(command_buffer_reuse_fence)),
        wait_semaphores@.len() == wait_mask@.len(),
    ensures
        final(device).wf(),
        final(command_buffer_reuse_fence).handle == old(command_buffer_reuse_fence).handle,
        final(command_buffer_reuse_fence).status == FenceStatus::Pending,
        final(command_buffer).handle == old(command_buffer).handle,
        final(command_buffer).state == CommandBufferState::Executable,
        final(device).live@ == old(device).live@,
        final(device).next_handle == old(device).next_handle,
        final(device).acquire_cursor == old(device).acquire_cursor,
        final(device).calls() == old(device).calls() + protocol_calls(
            old(command_buffer).handle,
            old(command_buffer_reuse_fence).handle,
            submit_queue,
            wait_semaphores@,
            wait_mask@,
            signal_semaphores@,
            record_commands@,
        ),
{
    let ghost calls0 = device.calls();
    let ghost live0 = device.live@;
    let ghost nh0 = device.next_handle;
    let ghost ac0 = device.acquire_cursor;
    let ghost cb = command_buffer.handle;
    let ghost fe = command_buffer_reuse_fence.handle;

    device.wait_for_fence(command_buffer_reuse_fence);
    device.reset_fence(command_buffer_reuse_fence);
    device.reset_command_buffer(command_buffer);
    device.begin_command_buffer(command_buffer);

    let ghost prefix = seq![
        CallView::FenceWait { fence: fe },
        CallView::FenceReset { fence: fe },
        CallView::CommandBufferReset { command_buffer: cb },
        CallView::CommandBufferBegin { command_buffer: cb },
    ];
    proof {
        assert(device.calls() =~= calls0 + prefix);
    }

    let mut i: usize = 0;
    while i < record_commands.len()
        invariant
            device.wf(),
            device.is_live(fe),
            i <= record_commands@.len(),
            command_buffer.handle == cb,
            command_buffer.state == CommandBufferState::Recording,
            command_buffer_reuse_fence.handle == fe,
            command_buffer_reuse_fence.status == FenceStatus::Unsignaled,
            device.live@ == live0,
            device.next_handle == nh0,
            device.acquire_cursor == ac0,
            device.calls() == calls0 + prefix + recorded_calls(
                cb,
                record_commands@.take(i as int),
            ),
        decreases record_commands@.len() - i,
    {
        device.record_command(command_buffer, record_commands[i]);
        proof {
            assert(record_commands@.take(i + 1 as int) =~= record_commands@.take(i as int).push(
                record_commands@[i as int],
            ));
            lemma_recorded_calls_push(cb, record_commands@.take(i as int), record_commands@[i as int]);
            assert(device.calls() =~= calls0 + prefix + recorded_calls(
                cb,
                record_commands@.take(i + 1 as int),
            ));
        }
        i = i + 1;
    }

    device.end_command_buffer(command_buffer);
    device.queue_submit(
        submit_queue,
        command_buffer,
        command_buffer_reuse_fence,
        wait_semaphores,
        wait_mask,
        signal_semaphores,
    );
    proof {
        assert(record_commands@.take(record_commands@.len() as int) =~= record_commands@);
        assert(device.calls() =~= calls0 + protocol_calls(
            cb,
            fe,
            submit_queue,
            wait_semaphores@,
            wait_mask@,
            signal_semaphores@,
            record_commands@,
        ));
    }
}

/// Appending one command appends one record entry.
proof fn lemma_recorded_calls_push(command_buffer: u64, commands: Seq<GpuCommand>, c: GpuCommand)
    ensures
        recorded_calls(command_buffer, commands.push(c)) =~= recorded_calls(
            command_buffer,
            commands,
        ).push(CallView::CommandRecorded { command_buffer, command: c }),
{
}

/// Law: one round of the protocol leaves the reuse fence pending, and a
/// pending fence is one whose unbounded wait terminates — so a second round
/// in sequence on the same command buffer and fence can never deadlock on
/// its initial fence wait.
pub proof fn lemma_second_round_never_deadlocks(fence: Fence)
    requires
        fence.status == FenceStatus::Pending,
    ensures
        fence_wait_terminates(fence),
{
}

} // verus!
