use render_core::stub::Call;
use render_core::stub::CommandBuffer;
use render_core::stub::CommandBufferState;
use render_core::stub::FenceStatus;
use render_core::stub::GpuCommand;
use render_core::stub::StubDevice;
use render_core::submit::record_submit_commandbuffer;

#[test]
fn one_round_follows_the_protocol_order() {
    let mut dev = StubDevice::new();
    let mut fence = dev.create_fence();
    assert_eq!(fence.status, FenceStatus::Signaled);
    let mut cb = CommandBuffer { handle: 900, state: CommandBufferState::Ready };

    let waits: Vec<u64> = Vec::new();
    let signals: Vec<u64> = Vec::new();
    let masks: Vec<u32> = Vec::new();
    let commands = vec![GpuCommand::SetViewport, GpuCommand::SetScissor];
    let before = dev.trace.len();
    record_submit_commandbuffer(
        &mut dev, &mut cb, &mut fence, 7, &waits, &signals, &masks, &commands,
    );

    // Wait, reset fence, reset buffer, begin, the two commands, end, submit.
    let round = &dev.trace[before..];
    assert_eq!(round.len(), 8);
    assert!(matches!(round[0], Call::FenceWait { fence: f } if f == fence.handle));
    assert!(matches!(round[1], Call::FenceReset { fence: f } if f == fence.handle));
    assert!(matches!(round[2], Call::CommandBufferReset { command_buffer: c } if c == cb.handle));
    assert!(matches!(round[3], Call::CommandBufferBegin { command_buffer: c } if c == cb.handle));
    assert!(matches!(
        round[4],
        Call::CommandRecorded { command_buffer: c, command: GpuCommand::SetViewport } if c == cb.handle
    ));
    assert!(matches!(
        round[5],
        Call::CommandRecorded { command_buffer: c, command: GpuCommand::SetScissor } if c == cb.handle
    ));
    assert!(matches!(round[6], Call::CommandBufferEnd { command_buffer: c } if c == cb.handle));
    assert!(matches!(round[7], Call::Submit { fence: f, command_buffer: c, queue: 7, .. }
        if f == fence.handle && c == cb.handle));

    // The fence leaves unsignaled, owed a signal by the submitted work.
    assert_eq!(fence.status, FenceStatus::Pending);
}

#[test]
fn two_rounds_on_one_pair_never_deadlock() {
    // The second round's initial wait must succeed: in the model, a wait on
    // a pending fence returns once the device finishes, and only an
    // unsignaled fence with no pending work would block forever.
    let mut dev = StubDevice::new();
    let mut fence = dev.create_fence();
    let mut cb = CommandBuffer { handle: 901, state: CommandBufferState::Ready };

    let waits: Vec<u64> = Vec::new();
    let signals: Vec<u64> = Vec::new();
    let masks: Vec<u32> = Vec::new();
    let commands = vec![GpuCommand::DrawIndexed { index_count: 3 }];

    record_submit_commandbuffer(
        &mut dev, &mut cb, &mut fence, 7, &waits, &signals, &masks, &commands,
    );
    assert_eq!(fence.status, FenceStatus::Pending);
    record_submit_commandbuffer(
        &mut dev, &mut cb, &mut fence, 7, &waits, &signals, &masks, &commands,
    );
    assert_eq!(fence.status, FenceStatus::Pending);

    let fence_waits = dev
        .trace
        .iter()
        .filter(|c| matches!(c, Call::FenceWait { fence: f } if *f == fence.handle))
        .count();
    let fence_resets = dev
        .trace
        .iter()
        .filter(|c| matches!(c, Call::FenceReset { fence: f } if *f == fence.handle))
        .count();
    let submits = dev
        .trace
        .iter()
        .filter(|c| matches!(c, Call::Submit { fence: f, .. } if *f == fence.handle))
        .count();
    assert_eq!(fence_waits, 2);
    assert_eq!(fence_resets, 2);
    assert_eq!(submits, 2);
}

#[test]
fn submission_carries_semaphores_positionally() {
    let mut dev = StubDevice::new();
    let mut fence = dev.create_fence();
    let mut cb = CommandBuffer { handle: 902, state: CommandBufferState::Ready };

    let waits = vec![11u64, 12u64];
    let masks = vec![0x400u32, 0x1u32];
    let signals = vec![21u64];
    let commands: Vec<GpuCommand> = Vec::new();
    record_submit_commandbuffer(
        &mut dev, &mut cb, &mut fence, 3, &waits, &signals, &masks, &commands,
    );

    match dev.trace.last().expect("a submit was recorded") {
        Call::Submit { queue, wait_semaphores, wait_stage_masks, signal_semaphores, .. } => {
            assert_eq!(*queue, 3);
            assert_eq!(wait_semaphores, &vec![11u64, 12u64]);
            assert_eq!(wait_stage_masks, &vec![0x400u32, 0x1u32]);
            assert_eq!(signal_semaphores, &vec![21u64]);
        },
        other => panic!("expected a submit, found {:?}", other),
    }
}
