use render_core::context::Base;
use render_core::context::ContextError;
use render_core::context::DeviceProfile;
use render_core::context::FrameResources;
use render_core::context::LoopAction;
use render_core::context::LoopEvent;
use render_core::context::loop_control;
use render_core::device::PhysicalDeviceInfo;
use render_core::device::QueueFamilySupport;
use render_core::memory::MemoryProperties;
use render_core::memory::MemoryRequirements;
use render_core::memory::MemoryType;
use render_core::memory::MEMORY_PROPERTY_DEVICE_LOCAL;
use render_core::memory::MEMORY_PROPERTY_HOST_VISIBLE;
use render_core::stub::Call;
use render_core::stub::FenceStatus;
use render_core::stub::ResourceKind;
use render_core::stub::StubDevice;
use render_core::swapchain::Extent2d;
use render_core::swapchain::PresentMode;
use render_core::swapchain::SurfaceCapabilities;
use render_core::swapchain::SurfaceFormat;
use render_core::swapchain::SURFACE_TRANSFORM_IDENTITY;

fn profile(min_image_count: u32, max_image_count: u32) -> DeviceProfile {
    DeviceProfile {
        physical_devices: vec![PhysicalDeviceInfo {
            queue_families: vec![QueueFamilySupport {
                supports_graphics: true,
                supports_present: true,
            }],
        }],
        surface_formats: vec![SurfaceFormat { format: 44, color_space: 0 }],
        surface_capabilities: SurfaceCapabilities {
            min_image_count,
            max_image_count,
            current_extent: Extent2d { width: u32::MAX, height: u32::MAX },
            supported_transforms: SURFACE_TRANSFORM_IDENTITY,
            current_transform: SURFACE_TRANSFORM_IDENTITY,
        },
        present_modes: vec![PresentMode::Fifo],
        memory_properties: MemoryProperties {
            memory_types: vec![
                MemoryType { property_flags: MEMORY_PROPERTY_HOST_VISIBLE },
                MemoryType { property_flags: MEMORY_PROPERTY_DEVICE_LOCAL },
            ],
        },
        depth_memory_requirements: MemoryRequirements {
            size: 4096,
            alignment: 256,
            memory_type_bits: 0b11,
        },
    }
}

fn build(dev: &mut StubDevice, p: &DeviceProfile, w: u32, h: u32) -> Base {
    match Base::new(dev, p, w, h) {
        Ok(base) => base,
        Err(e) => panic!("context creation failed: {:?}", e),
    }
}

/// The handles a trace entry mentions.
fn mentioned_handles(call: &Call) -> Vec<u64> {
    match call {
        Call::Create { handle, .. } => vec![*handle],
        Call::Destroy { handle, .. } => vec![*handle],
        Call::AllocateCommandBuffers { pool, setup, draw } => vec![*pool, *setup, *draw],
        Call::GetDeviceQueue { device, queue, .. } => vec![*device, *queue],
        Call::BindImageMemory { image, memory, .. } => vec![*image, *memory],
        Call::BindBufferMemory { buffer, memory, .. } => vec![*buffer, *memory],
        Call::MapMemory { memory, .. } => vec![*memory],
        Call::UnmapMemory { memory } => vec![*memory],
        Call::FenceWait { fence } => vec![*fence],
        Call::FenceReset { fence } => vec![*fence],
        Call::CommandBufferReset { command_buffer } => vec![*command_buffer],
        Call::CommandBufferBegin { command_buffer } => vec![*command_buffer],
        Call::CommandRecorded { command_buffer, .. } => vec![*command_buffer],
        Call::CommandBufferEnd { command_buffer } => vec![*command_buffer],
        Call::Submit { queue, command_buffer, fence, .. } => {
            vec![*queue, *command_buffer, *fence]
        },
        Call::AcquireImage { swapchain, signal_semaphore, .. } => {
            vec![*swapchain, *signal_semaphore]
        },
        Call::Present { queue, swapchain, wait_semaphore, .. } => {
            vec![*queue, *swapchain, *wait_semaphore]
        },
        Call::WaitIdle => Vec::new(),
    }
}

#[test]
fn uncapped_platform_resolves_to_three_images() {
    // min_image_count = 2, max_image_count = 0 (uncapped): three images.
    let mut dev = StubDevice::new();
    let base = build(&mut dev, &profile(2, 0), 800, 600);
    assert_eq!(base.image_count, 3);
    assert_eq!(base.present_image_views.len(), 3);
    assert_eq!(base.surface_resolution, Extent2d { width: 800, height: 600 });
    assert_eq!(base.surface_format, SurfaceFormat { format: 44, color_space: 0 });
    assert_eq!(base.present_mode, PresentMode::Fifo);
    assert_eq!(base.depth_memory_type_index, 1);
    assert_eq!(base.queue_family_index, 0);
    assert_eq!(base.draw_command_buffer_reuse_fence.status, FenceStatus::Signaled);
    assert_eq!(base.setup_command_buffer_reuse_fence.status, FenceStatus::Pending);
}

#[test]
fn capped_platform_clamps_to_two_images() {
    // min_image_count = 2, max_image_count = 2: clamped to two.
    let mut dev = StubDevice::new();
    let base = build(&mut dev, &profile(2, 2), 800, 600);
    assert_eq!(base.image_count, 2);
    assert_eq!(base.present_image_views.len(), 2);
}

#[test]
fn no_suitable_queue_family_is_fatal_and_creates_nothing() {
    let mut dev = StubDevice::new();
    let mut p = profile(2, 0);
    p.physical_devices = vec![PhysicalDeviceInfo {
        queue_families: vec![
            QueueFamilySupport { supports_graphics: true, supports_present: false },
            QueueFamilySupport { supports_graphics: false, supports_present: true },
        ],
    }];
    let r = Base::new(&mut dev, &p, 800, 600);
    assert!(matches!(r, Err(ContextError::NoSuitableQueueFamily)));
    assert_eq!(dev.trace.len(), 0);
}

#[test]
fn missing_device_local_memory_is_fatal_and_creates_nothing() {
    // Depth memory selection demands device-local; with no such type the
    // construction fails rather than substituting another tier.
    let mut dev = StubDevice::new();
    let mut p = profile(2, 0);
    p.memory_properties = MemoryProperties {
        memory_types: vec![MemoryType { property_flags: MEMORY_PROPERTY_HOST_VISIBLE }],
    };
    let r = Base::new(&mut dev, &p, 800, 600);
    assert!(matches!(r, Err(ContextError::NoCompatibleDepthMemoryType)));
    assert_eq!(dev.trace.len(), 0);
}

#[test]
fn teardown_destroys_in_exact_reverse_of_creation() {
    let mut dev = StubDevice::new();
    let base = build(&mut dev, &profile(2, 0), 800, 600);
    let construction_len = dev.trace.len();

    let creations: Vec<(ResourceKind, u64)> = dev.trace[..construction_len]
        .iter()
        .filter_map(|c| match c {
            Call::Create { kind, handle } => Some((*kind, *handle)),
            _ => None,
        })
        .collect();

    base.destroy(&mut dev);
    let teardown = &dev.trace[construction_len..];

    // An idle wait comes first, then one destroy per created resource.
    assert!(matches!(teardown[0], Call::WaitIdle));
    let destructions: Vec<(ResourceKind, u64)> = teardown
        .iter()
        .filter_map(|c| match c {
            Call::Destroy { kind, handle } => Some((*kind, *handle)),
            _ => None,
        })
        .collect();
    assert_eq!(teardown.len(), 1 + destructions.len());

    let mut reversed = creations.clone();
    reversed.reverse();
    assert_eq!(destructions, reversed);
}

#[test]
fn no_call_ever_mentions_a_destroyed_handle() {
    let mut dev = StubDevice::new();
    let base = build(&mut dev, &profile(2, 0), 800, 600);
    base.destroy(&mut dev);

    for (position, call) in dev.trace.iter().enumerate() {
        if let Call::Destroy { handle, .. } = call {
            for later in &dev.trace[position + 1..] {
                assert!(!mentioned_handles(later).contains(handle));
            }
        }
    }
}

#[test]
fn hundred_frames_touch_only_the_draw_fence() {
    let mut dev = StubDevice::new();
    let mut base = build(&mut dev, &profile(2, 0), 800, 600);
    let resources = FrameResources {
        framebuffers: vec![7001, 7002, 7003],
        graphics_pipeline: 7100,
        vertex_buffer: 7200,
        index_buffer: 7201,
        index_count: 3,
    };
    let construction_len = dev.trace.len();
    for _ in 0..100 {
        base.render_frame(&mut dev, &resources);
    }
    let frames = &dev.trace[construction_len..];
    let draw_fence = base.draw_command_buffer_reuse_fence.handle;
    let setup_fence = base.setup_command_buffer_reuse_fence.handle;
    let draw_buffer = base.draw_command_buffer.handle;

    let waits = frames
        .iter()
        .filter(|c| matches!(c, Call::FenceWait { fence } if *fence == draw_fence))
        .count();
    let resets = frames
        .iter()
        .filter(|c| matches!(c, Call::FenceReset { fence } if *fence == draw_fence))
        .count();
    let buffer_resets = frames
        .iter()
        .filter(|c| matches!(c, Call::CommandBufferReset { command_buffer } if *command_buffer == draw_buffer))
        .count();
    let submits = frames
        .iter()
        .filter(|c| matches!(c, Call::Submit { fence, .. } if *fence == draw_fence))
        .count();
    let presents = frames.iter().filter(|c| matches!(c, Call::Present { .. })).count();
    assert_eq!(waits, 100);
    assert_eq!(resets, 100);
    assert_eq!(buffer_resets, 100);
    assert_eq!(submits, 100);
    assert_eq!(presents, 100);

    // The setup fence is never touched in the steady state.
    for call in frames {
        assert!(!mentioned_handles(call).contains(&setup_fence));
    }

    // The acquired indices cycle round-robin through the three images.
    let indices: Vec<u32> = frames
        .iter()
        .filter_map(|c| match c {
            Call::AcquireImage { image_index, .. } => Some(*image_index),
            _ => None,
        })
        .collect();
    assert_eq!(indices.len(), 100);
    assert_eq!(&indices[..7], &[0, 1, 2, 0, 1, 2, 0]);
}

#[test]
fn frame_pairs_semaphores_between_acquire_submit_and_present() {
    let mut dev = StubDevice::new();
    let mut base = build(&mut dev, &profile(2, 0), 800, 600);
    let resources = FrameResources {
        framebuffers: vec![7001, 7002, 7003],
        graphics_pipeline: 7100,
        vertex_buffer: 7200,
        index_buffer: 7201,
        index_count: 3,
    };
    let construction_len = dev.trace.len();
    base.render_frame(&mut dev, &resources);
    let frame = &dev.trace[construction_len..];

    assert!(matches!(
        frame.first().expect("frame calls were recorded"),
        Call::AcquireImage { signal_semaphore, .. }
            if *signal_semaphore == base.present_complete_semaphore
    ));
    match &frame[frame.len() - 2] {
        Call::Submit { wait_semaphores, signal_semaphores, .. } => {
            assert_eq!(wait_semaphores, &vec![base.present_complete_semaphore]);
            assert_eq!(signal_semaphores, &vec![base.rendering_complete_semaphore]);
        },
        other => panic!("expected the draw submission, found {:?}", other),
    }
    assert!(matches!(
        frame.last().expect("frame calls were recorded"),
        Call::Present { wait_semaphore, .. }
            if *wait_semaphore == base.rendering_complete_semaphore
    ));
}

#[test]
fn loop_runs_one_frame_per_drained_tick_until_close() {
    let mut dev = StubDevice::new();
    let mut base = build(&mut dev, &profile(2, 0), 800, 600);
    let resources = FrameResources {
        framebuffers: vec![7001, 7002, 7003],
        graphics_pipeline: 7100,
        vertex_buffer: 7200,
        index_buffer: 7201,
        index_count: 3,
    };
    let events = vec![
        LoopEvent::Other,
        LoopEvent::MainEventsCleared,
        LoopEvent::Other,
        LoopEvent::MainEventsCleared,
        LoopEvent::CloseRequested,
        LoopEvent::MainEventsCleared,
    ];
    let frames = base.render_loop(&mut dev, &resources, &events);
    assert_eq!(frames, 2);
}

#[test]
fn escape_terminates_before_any_frame() {
    let mut dev = StubDevice::new();
    let mut base = build(&mut dev, &profile(2, 0), 800, 600);
    let resources = FrameResources {
        framebuffers: vec![7001, 7002, 7003],
        graphics_pipeline: 7100,
        vertex_buffer: 7200,
        index_buffer: 7201,
        index_count: 3,
    };
    let trace_len = dev.trace.len();
    let events = vec![LoopEvent::EscapePressed, LoopEvent::MainEventsCleared];
    let frames = base.render_loop(&mut dev, &resources, &events);
    assert_eq!(frames, 0);
    assert_eq!(dev.trace.len(), trace_len);
}

#[test]
fn loop_control_decides_each_event() {
    assert_eq!(loop_control(LoopEvent::CloseRequested), LoopAction::Exit);
    assert_eq!(loop_control(LoopEvent::EscapePressed), LoopAction::Exit);
    assert_eq!(loop_control(LoopEvent::MainEventsCleared), LoopAction::RunFrame);
    assert_eq!(loop_control(LoopEvent::Other), LoopAction::Ignore);
}
