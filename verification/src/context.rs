//! The graphics context: construction, reverse-order teardown, and the
//! per-frame presentation protocol.
//!
//! `Base` owns every device-level handle of the engine. Construction follows
//! a fixed order in which each step depends on the previous one; teardown
//! first waits for the device to go idle and then destroys in the exact
//! reverse of the creation order — the release order is a design invariant,
//! not a suggestion, because any other order is a use-after-destroy on a
//! real driver.

use vstd::prelude::*;
use crate::device::PhysicalDeviceInfo;
use crate::device::device_has_suitable_family;
use crate::device::is_first_suitable_selection;
use crate::device::select_device_and_queue_family;
use crate::memory::MEMORY_PROPERTY_DEVICE_LOCAL;
use crate::memory::MemoryProperties;
use crate::memory::MemoryRequirements;
use crate::memory::is_lowest_qualifying;
use crate::memory::qualifies_at;
use crate::memory::select_depth_image_memory;
use crate::stub::CallView;
use crate::stub::CommandBuffer;
use crate::stub::CommandBufferState;
use crate::stub::Fence;
use crate::stub::FenceStatus;
use crate::stub::GpuCommand;
use crate::stub::ResourceKind;
use crate::stub::StubDevice;
use crate::submit::PIPELINE_STAGE_COLOR_ATTACHMENT_OUTPUT;
use crate::submit::fence_wait_terminates;
use crate::submit::protocol_calls;
use crate::submit::record_submit_commandbuffer;
use crate::swapchain::Extent2d;
use crate::swapchain::PresentMode;
use crate::swapchain::SurfaceCapabilities;
use crate::swapchain::SurfaceFormat;
use crate::swapchain::choose_present_mode;
use crate::swapchain::choose_pre_transform;
use crate::swapchain::desired_image_count;
use crate::swapchain::spec_desired_image_count;
use crate::swapchain::spec_pre_transform;
use crate::swapchain::spec_surface_resolution;
use crate::swapchain::surface_resolution;

verus! {

/// Why a context cannot be built. Both causes are fatal: the process cannot
/// proceed without a suitable queue family or device-local depth memory.
#[derive(Clone, Copy, PartialEq, Eq, Structural, Debug)]
pub enum ContextError {
    /// No physical device exposes a queue family that supports both
    /// graphics submission and presentation to the surface.
    NoSuitableQueueFamily,
    /// No memory type advertises the device-local property for the depth
    /// image's compatible-type bitmask.
    NoCompatibleDepthMemoryType,
}

/// Everything the platform reports about the chosen device and surface:
/// the inputs of every configuration decision the context makes.
pub struct DeviceProfile {
    /// The enumerated physical devices, in platform order.
    pub physical_devices: Vec<PhysicalDeviceInfo>,
    /// The formats the surface reports; the context takes the first.
    pub surface_formats: Vec<SurfaceFormat>,
    /// What the surface reports about itself.
    pub surface_capabilities: SurfaceCapabilities,
    /// The present modes the surface offers.
    pub present_modes: Vec<PresentMode>,
    /// The device's memory-heap descriptors.
    pub memory_properties: MemoryProperties,
    /// The requirements the device reports for the depth image.
    pub depth_memory_requirements: MemoryRequirements,
}

impl DeviceProfile {
    /// The platform guarantees of a well-formed report: at least one
    /// surface format, a memory-type table that fits its bitmask, an image
    /// count minimum with room for one more, and queue-family tables whose
    /// indices fit the index type.
    pub open spec fn wf(self) -> bool {
        &&& self.surface_formats@.len() >= 1
        &&& self.memory_properties.wf()
        &&& self.surface_capabilities.min_image_count < u32::MAX
        &&& forall|i: int|
            0 <= i < self.physical_devices@.len()
                ==> (#[trigger] self.physical_devices@[i].queue_families@.len()) <= u32::MAX
    }

    /// Some enumerated device exposes a suitable queue family.
    pub open spec fn has_suitable_device(self) -> bool {
        exists|e: int|
            0 <= e < self.physical_devices@.len() && device_has_suitable_family(
                #[trigger] self.physical_devices@[e],
            )
    }

    /// Some memory type is device-local and compatible with the depth
    /// image's requirements.
    pub open spec fn has_depth_memory(self) -> bool {
        exists|j: int|
            0 <= j < self.memory_properties.memory_types@.len() && qualifies_at(
                self.depth_memory_requirements.memory_type_bits,
                self.memory_properties,
                MEMORY_PROPERTY_DEVICE_LOCAL,
                j,
            )
    }
}

/// The graphics context: owner of every device-level handle, the two
/// command buffers with their reuse fences, and the two cross-frame
/// semaphores.
pub struct Base {
    /// The index of the chosen physical device.
    pub physical_device_index: usize,
    /// The chosen queue family.
    pub queue_family_index: u32,
    /// The surface format in use: the first one the surface reported.
    pub surface_format: SurfaceFormat,
    /// The swapchain resolution.
    pub surface_resolution: Extent2d,
    /// The chosen present mode.
    pub present_mode: PresentMode,
    /// The chosen pre-rotation transform.
    pub pre_transform: u32,
    /// How many presentable images the swapchain holds.
    pub image_count: u32,
    /// The memory type backing the depth image.
    pub depth_memory_type_index: u32,
    /// The API instance.
    pub instance: u64,
    /// The diagnostic-message listener.
    pub debug_messenger: u64,
    /// The presentation surface.
    pub surface: u64,
    /// The logical device.
    pub device: u64,
    /// The one queue all submissions and presents go to.
    pub command_submit_queue: u64,
    /// The swapchain.
    pub swapchain: u64,
    /// The command pool both command buffers come from.
    pub command_pool: u64,
    /// One color image view per presentable image.
    pub present_image_views: Vec<u64>,
    /// The depth image.
    pub depth_image: u64,
    /// The depth image's backing memory.
    pub depth_image_memory: u64,
    /// The depth image view.
    pub depth_image_view: u64,
    /// The command buffer used for one-shot setup work.
    pub setup_command_buffer: CommandBuffer,
    /// The command buffer re-recorded every frame.
    pub draw_command_buffer: CommandBuffer,
    /// The reuse fence gating the setup command buffer.
    pub setup_command_buffer_reuse_fence: Fence,
    /// The reuse fence gating the draw command buffer.
    pub draw_command_buffer_reuse_fence: Fence,
    /// Signaled by the acquire, waited on by the draw submission.
    pub present_complete_semaphore: u64,
    /// Signaled by the draw submission, waited on by the present.
    pub rendering_complete_semaphore: u64,
}

impl Base {
    /// Handles were allocated in construction order, so they are strictly
    /// increasing — which makes them pairwise distinct.
    pub open spec fn handles_ordered(self) -> bool {
        &&& self.instance < self.debug_messenger
        &&& self.debug_messenger < self.surface
        &&& self.surface < self.device
        &&& self.device < self.swapchain
        &&& self.swapchain < self.command_pool
        &&& self.command_pool < self.setup_command_buffer.handle
        &&& self.setup_command_buffer.handle < self.draw_command_buffer.handle
        &&& forall|i: int|
            0 <= i < self.present_image_views@.len() ==> self.draw_command_buffer.handle
                < #[trigger] self.present_image_views@[i] && self.present_image_views@[i]
                < self.depth_image
        &&& forall|i: int, j: int|
            0 <= i < j < self.present_image_views@.len() ==> self.present_image_views@[i]
                < self.present_image_views@[j]
        &&& self.depth_image < self.depth_image_memory
        &&& self.depth_image_memory < self.draw_command_buffer_reuse_fence.handle
        &&& self.draw_command_buffer_reuse_fence.handle
            < self.setup_command_buffer_reuse_fence.handle
        &&& self.setup_command_buffer_reuse_fence.handle < self.depth_image_view
        &&& self.depth_image_view < self.present_complete_semaphore
        &&& self.present_complete_semaphore < self.rendering_complete_semaphore
    }

    /// Every resource the context owns is still live on the device.
    pub open spec fn resources_live(self, dev: StubDevice) -> bool {
        &&& dev.is_live(self.instance)
        &&& dev.is_live(self.debug_messenger)
        &&& dev.is_live(self.surface)
        &&& dev.is_live(self.device)
        &&& dev.is_live(self.swapchain)
        &&& dev.is_live(self.command_pool)
        &&& forall|i: int|
            0 <= i < self.present_image_views@.len() ==> dev.is_live(
                #[trigger] self.present_image_views@[i],
            )
        &&& dev.is_live(self.depth_image)
        &&& dev.is_live(self.depth_image_memory)
        &&& dev.is_live(self.draw_command_buffer_reuse_fence.handle)
        &&& dev.is_live(self.setup_command_buffer_reuse_fence.handle)
        &&& dev.is_live(self.depth_image_view)
        &&& dev.is_live(self.present_complete_semaphore)
        &&& dev.is_live(self.rendering_complete_semaphore)
    }

    /// The context's invariant against the device it was built on: handles
    /// ordered and live, one view per presentable image, and both reuse
    /// fences in a state whose wait terminates.
    pub open spec fn wf(self, dev: StubDevice) -> bool {
        &&& self.handles_ordered()
        &&& self.resources_live(dev)
        &&& self.present_image_views@.len() == self.image_count
        &&& self.image_count > 0
        &&& fence_wait_terminates(self.draw_command_buffer_reuse_fence)
        &&& fence_wait_terminates(self.setup_command_buffer_reuse_fence)
    }

    /// Everything except the draw command buffer's recording state and the
    /// draw reuse fence's signal state is the same in both contexts: the
    /// frame cycle changes nothing else.
    pub open spec fn same_static_state(self, other: Base) -> bool {
        &&& self.physical_device_index == other.physical_device_index
        &&& self.queue_family_index == other.queue_family_index
        &&& self.surface_format == other.surface_format
        &&& self.surface_resolution == other.surface_resolution
        &&& self.present_mode == other.present_mode
        &&& self.pre_transform == other.pre_transform
        &&& self.image_count == other.image_count
        &&& self.depth_memory_type_index == other.depth_memory_type_index
        &&& self.instance == other.instance
        &&& self.debug_messenger == other.debug_messenger
        &&& self.surface == other.surface
        &&& self.device == other.device
        &&& self.command_submit_queue == other.command_submit_queue
        &&& self.swapchain == other.swapchain
        &&& self.command_pool == other.command_pool
        &&& self.present_image_views@ == other.present_image_views@
        &&& self.depth_image == other.depth_image
        &&& self.depth_image_memory == other.depth_image_memory
        &&& self.depth_image_view == other.depth_image_view
        &&& self.setup_command_buffer == other.setup_command_buffer
        &&& self.setup_command_buffer_reuse_fence == other.setup_command_buffer_reuse_fence
        &&& self.draw_command_buffer.handle == other.draw_command_buffer.handle
        &&& self.draw_command_buffer_reuse_fence.handle
            == other.draw_command_buffer_reuse_fence.handle
        &&& self.present_complete_semaphore == other.present_complete_semaphore
        &&& self.rendering_complete_semaphore == other.rendering_complete_semaphore
    }

    /// The destroyable resources the context acquired, in creation order.
    /// Command buffers are absent: the pool owns and frees them. The queue
    /// is absent: the device owns it.
    pub open spec fn created_resources(self) -> Seq<(ResourceKind, u64)> {
        seq![
            (ResourceKind::Instance, self.instance),
            (ResourceKind::DebugMessenger, self.debug_messenger),
            (ResourceKind::Surface, self.surface),
            (ResourceKind::Device, self.device),
            (ResourceKind::Swapchain, self.swapchain),
            (ResourceKind::CommandPool, self.command_pool),
        ] + self.present_image_views@.map(|i: int, v: u64| (ResourceKind::ImageView, v)) + seq![
            (ResourceKind::Image, self.depth_image),
            (ResourceKind::Memory, self.depth_image_memory),
            (ResourceKind::Fence, self.draw_command_buffer_reuse_fence.handle),
            (ResourceKind::Fence, self.setup_command_buffer_reuse_fence.handle),
            (ResourceKind::ImageView, self.depth_image_view),
            (ResourceKind::Semaphore, self.present_complete_semaphore),
            (ResourceKind::Semaphore, self.rendering_complete_semaphore),
        ]
    }

    /// The exact call sequence of construction: the core resources, one
    /// view per presentable image, then the depth and synchronization
    /// resources around the one-shot layout-transition submission.
    pub open spec fn construction_calls(self) -> Seq<CallView> {
        core_calls(
            self.instance,
            self.debug_messenger,
            self.surface,
            self.device,
            self.queue_family_index,
            self.command_submit_queue,
            self.swapchain,
            self.command_pool,
            self.setup_command_buffer.handle,
            self.draw_command_buffer.handle,
        ) + created_view_calls(self.present_image_views@) + depth_and_sync_calls(
            self.depth_image,
            self.depth_image_memory,
            self.draw_command_buffer_reuse_fence.handle,
            self.setup_command_buffer_reuse_fence.handle,
            self.depth_image_view,
            self.present_complete_semaphore,
            self.rendering_complete_semaphore,
            self.setup_command_buffer.handle,
            self.command_submit_queue,
        )
    }

    /// Builds the context on the given device, deciding everything from the
    /// profile: the first suitable device and queue family, the first
    /// reported surface format, minimum-plus-one images clamped to the
    /// platform cap, the reported extent (or the window size where the
    /// platform reports none), identity pre-rotation where supported, the
    /// low-latency present mode where offered, and device-local memory for
    /// the depth image. Fails — creating nothing — when no queue family
    /// suits or no depth memory type qualifies, both of which are fatal to
    /// the application.
    #[verifier::rlimit(100)]
    pub fn new(
        dev: &mut StubDevice,
        profile: &DeviceProfile,
        window_width: u32,
        window_height: u32,
    ) -> (r: Result<Base, ContextError>)
        requires
            old(dev).wf(),
            profile.wf(),
            old(dev).next_handle + profile.surface_capabilities.min_image_count + 17
                <= u64::MAX,
        ensures
            final(dev).wf(),
            final(dev).acquire_cursor == old(dev).acquire_cursor,
            match r {
                Ok(base) => {
                    &&& base.wf(*final(dev))
                    &&& is_first_suitable_selection(
                        profile.physical_devices@,
                        base.physical_device_index as int,
                        base.queue_family_index as int,
                    )
                    &&& base.surface_format == profile.surface_formats@[0]
                    &&& base.image_count == spec_desired_image_count(profile.surface_capabilities)
                    &&& base.surface_resolution == spec_surface_resolution(
                        profile.surface_capabilities,
                        window_width,
                        window_height,
                    )
                    &&& base.pre_transform == spec_pre_transform(profile.surface_capabilities)
                    &&& (profile.present_modes@.contains(PresentMode::Mailbox) ==> base.present_mode
                        == PresentMode::Mailbox)
                    &&& (!profile.present_modes@.contains(PresentMode::Mailbox)
                        ==> base.present_mode == PresentMode::Fifo)
                    &&& is_lowest_qualifying(
                        profile.depth_memory_requirements.memory_type_bits,
                        profile.memory_properties,
                        MEMORY_PROPERTY_DEVICE_LOCAL,
                        Some(base.depth_memory_type_index),
                    )
                    &&& base.draw_command_buffer_reuse_fence.status == FenceStatus::Signaled
                    &&& base.setup_command_buffer_reuse_fence.status == FenceStatus::Pending
                    &&& base.setup_command_buffer.state == CommandBufferState::Executable
                    &&& base.draw_command_buffer.state == CommandBufferState::Ready
                    &&& final(dev).calls() == old(dev).calls() + base.construction_calls()
                },
                Err(e) => {
                    &&& final(dev).calls() == old(dev).calls()
                    &&& final(dev).live@ == old(dev).live@
                    &&& final(dev).next_handle == old(dev).next_handle
                    &&& (e == ContextError::NoSuitableQueueFamily <==> !profile.has_suitable_device())
                    &&& (e == ContextError::NoCompatibleDepthMemoryType <==> (
                        profile.has_suitable_device() && !profile.has_depth_memory()))
                },
            },
            r is Ok <==> (profile.has_suitable_device() && profile.has_depth_memory()),
    {
        // Every decision is made before anything is created, so a fatal
        // profile creates no resources at all.
        let selection = select_device_and_queue_family(&profile.physical_devices);
        let (physical_device_index, queue_family_index) = match selection {
            Some(pair) => pair,
            None => {
                return Err(ContextError::NoSuitableQueueFamily);
            },
        };
        proof {
            assert(profile.has_suitable_device());
        }
        let depth_selection = select_depth_image_memory(
            &profile.depth_memory_requirements,
            &profile.memory_properties,
        );
        let depth_memory_type_index = match depth_selection {
            Some(index) => index,
            None => {
                return Err(ContextError::NoCompatibleDepthMemoryType);
            },
        };
        proof {
            assert(qualifies_at(
                profile.depth_memory_requirements.memory_type_bits,
                profile.memory_properties,
                MEMORY_PROPERTY_DEVICE_LOCAL,
                depth_memory_type_index as int,
            ));
            assert(profile.has_depth_memory());
        }

        let surface_format = profile.surface_formats[0];
        let image_count = desired_image_count(&profile.surface_capabilities);
        let resolution = surface_resolution(
            &profile.surface_capabilities,
            window_width,
            window_height,
        );
        let pre_transform = choose_pre_transform(&profile.surface_capabilities);
        let present_mode = choose_present_mode(&profile.present_modes);

        let ghost calls0 = dev.calls();
        let ghost live0 = dev.live@;

        let core = create_core(dev, queue_family_index);
        let ghost head = core_calls(
            core.instance,
            core.debug_messenger,
            core.surface,
            core.device,
            queue_family_index,
            core.command_submit_queue,
            core.swapchain,
            core.command_pool,
            core.setup_command_buffer.handle,
            core.draw_command_buffer.handle,
        );

        let present_image_views = create_image_views(dev, image_count);
        proof {
            assert(dev.calls() =~= calls0 + head + created_view_calls(present_image_views@));
        }

        let mut setup_command_buffer = core.setup_command_buffer;
        let sync = create_depth_and_sync(dev, &mut setup_command_buffer, core.command_submit_queue);
        let ghost tail = depth_and_sync_calls(
            sync.depth_image,
            sync.depth_image_memory,
            sync.draw_command_buffer_reuse_fence.handle,
            sync.setup_command_buffer_reuse_fence.handle,
            sync.depth_image_view,
            sync.present_complete_semaphore,
            sync.rendering_complete_semaphore,
            setup_command_buffer.handle,
            core.command_submit_queue,
        );

        let base = Base {
            physical_device_index,
            queue_family_index,
            surface_format,
            surface_resolution: resolution,
            present_mode,
            pre_transform,
            image_count,
            depth_memory_type_index,
            instance: core.instance,
            debug_messenger: core.debug_messenger,
            surface: core.surface,
            device: core.device,
            command_submit_queue: core.command_submit_queue,
            swapchain: core.swapchain,
            command_pool: core.command_pool,
            present_image_views,
            depth_image: sync.depth_image,
            depth_image_memory: sync.depth_image_memory,
            depth_image_view: sync.depth_image_view,
            setup_command_buffer,
            draw_command_buffer: core.draw_command_buffer,
            setup_command_buffer_reuse_fence: sync.setup_command_buffer_reuse_fence,
            draw_command_buffer_reuse_fence: sync.draw_command_buffer_reuse_fence,
            present_complete_semaphore: sync.present_complete_semaphore,
            rendering_complete_semaphore: sync.rendering_complete_semaphore,
        };
        proof {
            assert(dev.calls() =~= calls0 + base.construction_calls());
            let live = dev.live@;
            let first = live0.len() as int;
            let views = base.present_image_views@;
            let count = views.len() as int;
            assert(dev.live@ =~= live0 + seq![
                base.instance,
                base.debug_messenger,
                base.surface,
                base.device,
                base.swapchain,
                base.command_pool,
            ] + views + seq![
                base.depth_image,
                base.depth_image_memory,
                base.draw_command_buffer_reuse_fence.handle,
                base.setup_command_buffer_reuse_fence.handle,
                base.depth_image_view,
                base.present_complete_semaphore,
                base.rendering_complete_semaphore,
            ]);
            assert(dev.is_live(base.instance)) by {
                assert(live[first] == base.instance);
            }
            assert(dev.is_live(base.debug_messenger)) by {
                assert(live[first + 1] == base.debug_messenger);
            }
            assert(dev.is_live(base.surface)) by {
                assert(live[first + 2] == base.surface);
            }
            assert(dev.is_live(base.device)) by {
                assert(live[first + 3] == base.device);
            }
            assert(dev.is_live(base.swapchain)) by {
                assert(live[first + 4] == base.swapchain);
            }
            assert(dev.is_live(base.command_pool)) by {
                assert(live[first + 5] == base.command_pool);
            }
            assert forall|i: int| 0 <= i < count implies dev.is_live(#[trigger] views[i]) by {
                assert(live[first + 6 + i] == views[i]);
            }
            assert(dev.is_live(base.depth_image)) by {
                assert(live[first + 6 + count] == base.depth_image);
            }
            assert(dev.is_live(base.depth_image_memory)) by {
                assert(live[first + 7 + count] == base.depth_image_memory);
            }
            assert(dev.is_live(base.draw_command_buffer_reuse_fence.handle)) by {
                assert(live[first + 8 + count] == base.draw_command_buffer_reuse_fence.handle);
            }
            assert(dev.is_live(base.setup_command_buffer_reuse_fence.handle)) by {
                assert(live[first + 9 + count] == base.setup_command_buffer_reuse_fence.handle);
            }
            assert(dev.is_live(base.depth_image_view)) by {
                assert(live[first + 10 + count] == base.depth_image_view);
            }
            assert(dev.is_live(base.present_complete_semaphore)) by {
                assert(live[first + 11 + count] == base.present_complete_semaphore);
            }
            assert(dev.is_live(base.rendering_complete_semaphore)) by {
                assert(live[first + 12 + count] == base.rendering_complete_semaphore);
            }
            assert(base.handles_ordered());
            assert(base.wf(*dev));
        }
        Ok(base)
    }

    /// The handles the context owns: the ones `destroy` will destroy.
    pub open spec fn owns_handle(self, h: u64) -> bool {
        ||| h == self.instance
        ||| h == self.debug_messenger
        ||| h == self.surface
        ||| h == self.device
        ||| h == self.swapchain
        ||| h == self.command_pool
        ||| self.present_image_views@.contains(h)
        ||| h == self.depth_image
        ||| h == self.depth_image_memory
        ||| h == self.draw_command_buffer_reuse_fence.handle
        ||| h == self.setup_command_buffer_reuse_fence.handle
        ||| h == self.depth_image_view
        ||| h == self.present_complete_semaphore
        ||| h == self.rendering_complete_semaphore
    }

    /// The exact call sequence of teardown: one idle wait, then one destroy
    /// per created resource, in exactly the reverse of the creation order.
    pub open spec fn teardown_calls(self) -> Seq<CallView> {
        seq![
            CallView::WaitIdle,
            CallView::Destroy {
                kind: ResourceKind::Semaphore,
                handle: self.rendering_complete_semaphore,
            },
            CallView::Destroy {
                kind: ResourceKind::Semaphore,
                handle: self.present_complete_semaphore,
            },
            CallView::Destroy { kind: ResourceKind::ImageView, handle: self.depth_image_view },
            CallView::Destroy {
                kind: ResourceKind::Fence,
                handle: self.setup_command_buffer_reuse_fence.handle,
            },
            CallView::Destroy {
                kind: ResourceKind::Fence,
                handle: self.draw_command_buffer_reuse_fence.handle,
            },
            CallView::Destroy { kind: ResourceKind::Memory, handle: self.depth_image_memory },
            CallView::Destroy { kind: ResourceKind::Image, handle: self.depth_image },
        ] + destroyed_view_calls(self.present_image_views@) + seq![
            CallView::Destroy { kind: ResourceKind::CommandPool, handle: self.command_pool },
            CallView::Destroy { kind: ResourceKind::Swapchain, handle: self.swapchain },
            CallView::Destroy { kind: ResourceKind::Device, handle: self.device },
            CallView::Destroy { kind: ResourceKind::Surface, handle: self.surface },
            CallView::Destroy { kind: ResourceKind::DebugMessenger, handle: self.debug_messenger },
            CallView::Destroy { kind: ResourceKind::Instance, handle: self.instance },
        ]
    }

    /// Tears the context down: waits for the device to go idle, then
    /// destroys every owned resource in the exact reverse of the creation
    /// order — semaphores, depth view, fences, depth memory, depth image,
    /// each swapchain image view, the command pool (which frees its command
    /// buffers), swapchain, device, surface, diagnostic listener, instance.
    /// Taking the context by value makes a second teardown impossible.
    #[verifier::rlimit(100)]
    pub fn destroy(self, dev: &mut StubDevice)
        requires
            old(dev).wf(),
            self.wf(*old(dev)),
        ensures
            final(dev).wf(),
            final(dev).next_handle == old(dev).next_handle,
            final(dev).acquire_cursor == old(dev).acquire_cursor,
            final(dev).calls() == old(dev).calls() + self.teardown_calls(),
            forall|h: u64|
                final(dev).is_live(h) <==> (old(dev).is_live(h) && !self.owns_handle(h)),
    {
        let ghost calls0 = dev.calls();
        let ghost views = self.present_image_views@;

        dev.wait_idle();
        dev.destroy(ResourceKind::Semaphore, self.rendering_complete_semaphore);
        dev.destroy(ResourceKind::Semaphore, self.present_complete_semaphore);
        dev.destroy(ResourceKind::ImageView, self.depth_image_view);
        dev.destroy(ResourceKind::Fence, self.setup_command_buffer_reuse_fence.handle);
        dev.destroy(ResourceKind::Fence, self.draw_command_buffer_reuse_fence.handle);
        dev.destroy(ResourceKind::Memory, self.depth_image_memory);
        proof {
            assert(dev.is_live(self.depth_image));
        }
        dev.destroy(ResourceKind::Image, self.depth_image);

        let ghost head = seq![
            CallView::WaitIdle,
            CallView::Destroy {
                kind: ResourceKind::Semaphore,
                handle: self.rendering_complete_semaphore,
            },
            CallView::Destroy {
                kind: ResourceKind::Semaphore,
                handle: self.present_complete_semaphore,
            },
            CallView::Destroy { kind: ResourceKind::ImageView, handle: self.depth_image_view },
            CallView::Destroy {
                kind: ResourceKind::Fence,
                handle: self.setup_command_buffer_reuse_fence.handle,
            },
            CallView::Destroy {
                kind: ResourceKind::Fence,
                handle: self.draw_command_buffer_reuse_fence.handle,
            },
            CallView::Destroy { kind: ResourceKind::Memory, handle: self.depth_image_memory },
            CallView::Destroy { kind: ResourceKind::Image, handle: self.depth_image },
        ];
        proof {
            assert(dev.calls() =~= calls0 + head);
            assert(views.skip(views.len() as int) =~= Seq::<u64>::empty());
            assert(destroyed_view_calls(views.skip(views.len() as int)) =~= Seq::<
                CallView,
            >::empty());
            assert(dev.calls() =~= calls0 + head + destroyed_view_calls(
                views.skip(views.len() as int),
            ));
        }

        let mut remaining: usize = self.present_image_views.len();
        while remaining > 0
            invariant
                dev.wf(),
                remaining <= views.len(),
                views == self.present_image_views@,
                self.handles_ordered(),
                dev.next_handle == old(dev).next_handle,
                dev.acquire_cursor == old(dev).acquire_cursor,
                dev.calls() == calls0 + head + destroyed_view_calls(
                    views.skip(remaining as int),
                ),
                forall|h: u64|
                    dev.is_live(h) <==> (old(dev).is_live(h) && h
                        != self.rendering_complete_semaphore && h
                        != self.present_complete_semaphore && h != self.depth_image_view && h
                        != self.setup_command_buffer_reuse_fence.handle && h
                        != self.draw_command_buffer_reuse_fence.handle && h
                        != self.depth_image_memory && h != self.depth_image && !views.skip(
                        remaining as int,
                    ).contains(h)),
                forall|i: int| 0 <= i < views.len() ==> old(dev).is_live(#[trigger] views[i]),
            decreases remaining,
        {
            remaining = remaining - 1;
            proof {
                assert(!views.skip(remaining + 1 as int).contains(views[remaining as int])) by {
                    if views.skip(remaining + 1 as int).contains(views[remaining as int]) {
                        let k = choose|k: int|
                            0 <= k < views.skip(remaining + 1 as int).len() && #[trigger] views.skip(
                                remaining + 1 as int,
                            )[k] == views[remaining as int];
                        assert(views[remaining + 1 + k] == views[remaining as int]);
                        assert(self.present_image_views@[remaining as int]
                            < self.present_image_views@[remaining + 1 + k]);
                        assert(false);
                    }
                }
                assert(dev.is_live(views[remaining as int]));
            }
            dev.destroy(ResourceKind::ImageView, self.present_image_views[remaining]);
            proof {
                assert(views.skip(remaining as int) =~= seq![views[remaining as int]] + views.skip(
                    remaining + 1 as int,
                ));
                assert(destroyed_view_calls(views.skip(remaining as int)) =~= destroyed_view_calls(
                    views.skip(remaining + 1 as int),
                ).push(
                    CallView::Destroy {
                        kind: ResourceKind::ImageView,
                        handle: views[remaining as int],
                    },
                ));
                assert(dev.calls() =~= calls0 + head + destroyed_view_calls(
                    views.skip(remaining as int),
                ));
                assert forall|h: u64|
                    views.skip(remaining as int).contains(h) <==> (views.skip(
                        remaining + 1 as int,
                    ).contains(h) || h == views[remaining as int]) by {
                    if views.skip(remaining as int).contains(h) {
                        let k = choose|k: int|
                            0 <= k < views.skip(remaining as int).len() && #[trigger] views.skip(
                                remaining as int,
                            )[k] == h;
                        if k > 0 {
                            assert(views.skip(remaining + 1 as int)[k - 1] == h);
                        }
                    }
                    if views.skip(remaining + 1 as int).contains(h) {
                        let k = choose|k: int|
                            0 <= k < views.skip(remaining + 1 as int).len() && #[trigger] views.skip(
                                remaining + 1 as int,
                            )[k] == h;
                        assert(views.skip(remaining as int)[k + 1] == h);
                    }
                    if h == views[remaining as int] {
                        assert(views.skip(remaining as int)[0] == h);
                    }
                }
            }
        }
        proof {
            assert(views.skip(0) =~= views);
        }

        proof {
            let pv = self.present_image_views@;
            assert(pv.len() > 0);
            assert(self.draw_command_buffer.handle < pv[0] && pv[0] < self.depth_image);
            assert forall|h: u64| h <= self.draw_command_buffer.handle implies !pv.contains(
                h,
            ) by {
                if pv.contains(h) {
                    let k = choose|k: int| 0 <= k < pv.len() && pv[k] == h;
                    assert(self.draw_command_buffer.handle < pv[k]);
                    assert(false);
                }
            }
            assert(!views.contains(self.command_pool));
            assert(!views.contains(self.swapchain));
            assert(!views.contains(self.device));
            assert(!views.contains(self.surface));
            assert(!views.contains(self.debug_messenger));
            assert(!views.contains(self.instance));
        }
        dev.destroy(ResourceKind::CommandPool, self.command_pool);
        dev.destroy(ResourceKind::Swapchain, self.swapchain);
        dev.destroy(ResourceKind::Device, self.device);
        dev.destroy(ResourceKind::Surface, self.surface);
        dev.destroy(ResourceKind::DebugMessenger, self.debug_messenger);
        dev.destroy(ResourceKind::Instance, self.instance);

        proof {
            assert(dev.calls() =~= calls0 + self.teardown_calls());
            assert forall|h: u64|
                dev.is_live(h) <==> (old(dev).is_live(h) && !self.owns_handle(h)) by {}
        }
    }

    /// One visible frame: acquire the next presentable image (signaling the
    /// present-complete semaphore), re-record and submit the draw command
    /// buffer through the fence-gated protocol — waiting on the
    /// present-complete semaphore at the color-attachment-output stage and
    /// signaling the rendering-complete semaphore — then present the
    /// acquired image, waiting on the rendering-complete semaphore. Returns
    /// the acquired image index. Single frame in flight: at most one draw
    /// submission is ever outstanding, gated by the draw reuse fence.
    pub fn render_frame(&mut self, dev: &mut StubDevice, resources: &FrameResources) -> (image_index:
        u32)
        requires
            old(dev).wf(),
            old(self).wf(*old(dev)),
            resources.framebuffers@.len() == old(self).image_count,
        ensures
            final(dev).wf(),
            final(self).wf(*final(dev)),
            old(self).same_static_state(*final(self)),
            final(self).draw_command_buffer_reuse_fence.status == FenceStatus::Pending,
            final(self).setup_command_buffer_reuse_fence == old(
                self,
            ).setup_command_buffer_reuse_fence,
            image_index == old(dev).acquire_cursor % old(self).image_count,
            image_index < old(self).image_count,
            final(dev).live@ == old(dev).live@,
            final(dev).next_handle == old(dev).next_handle,
            final(dev).acquire_cursor == ((image_index + 1) as u32) % old(self).image_count,
            final(dev).calls() == old(dev).calls() + frame_calls(
                *old(self),
                image_index,
                *resources,
            ),
    {
        let ghost calls0 = dev.calls();
        let image_index = dev.acquire_next_image(
            self.swapchain,
            self.image_count,
            self.present_complete_semaphore,
        );

        let mut commands: Vec<GpuCommand> = Vec::new();
        commands.push(
            GpuCommand::BeginRenderPass {
                framebuffer: resources.framebuffers[image_index as usize],
            },
        );
        commands.push(GpuCommand::BindPipeline { pipeline: resources.graphics_pipeline });
        commands.push(GpuCommand::SetViewport);
        commands.push(GpuCommand::SetScissor);
        commands.push(GpuCommand::BindVertexBuffer { buffer: resources.vertex_buffer });
        commands.push(GpuCommand::BindIndexBuffer { buffer: resources.index_buffer });
        commands.push(GpuCommand::DrawIndexed { index_count: resources.index_count });
        commands.push(GpuCommand::EndRenderPass);

        let mut wait_semaphores: Vec<u64> = Vec::new();
        wait_semaphores.push(self.present_complete_semaphore);
        let mut wait_masks: Vec<u32> = Vec::new();
        wait_masks.push(PIPELINE_STAGE_COLOR_ATTACHMENT_OUTPUT);
        let mut signal_semaphores: Vec<u64> = Vec::new();
        signal_semaphores.push(self.rendering_complete_semaphore);

        record_submit_commandbuffer(
            dev,
            &mut self.draw_command_buffer,
            &mut self.draw_command_buffer_reuse_fence,
            self.command_submit_queue,
            &wait_semaphores,
            &signal_semaphores,
            &wait_masks,
            &commands,
        );

        dev.queue_present(
            self.command_submit_queue,
            self.swapchain,
            self.rendering_complete_semaphore,
            image_index,
        );
        proof {
            assert(commands@ =~= frame_commands(*resources, image_index));
            assert(wait_semaphores@ =~= seq![self.present_complete_semaphore]);
            assert(wait_masks@ =~= seq![PIPELINE_STAGE_COLOR_ATTACHMENT_OUTPUT]);
            assert(signal_semaphores@ =~= seq![self.rendering_complete_semaphore]);
            assert(dev.calls() =~= calls0 + frame_calls(*old(self), image_index, *resources));
        }
        image_index
    }

    /// Drives the frame loop over a stream of events, exactly as the event
    /// pump delivers them: a close request or an escape press terminates the
    /// loop; every events-drained tick renders exactly one frame; anything
    /// else is ignored. Returns how many frames were rendered.
    pub fn render_loop(
        &mut self,
        dev: &mut StubDevice,
        resources: &FrameResources,
        events: &Vec<LoopEvent>,
    ) -> (frames: usize)
        requires
            old(dev).wf(),
            old(self).wf(*old(dev)),
            resources.framebuffers@.len() == old(self).image_count,
        ensures
            final(dev).wf(),
            final(self).wf(*final(dev)),
            old(self).same_static_state(*final(self)),
            frames == frames_before_exit(events@),
            final(dev).live@ == old(dev).live@,
            final(dev).next_handle == old(dev).next_handle,
            final(dev).calls() == old(dev).calls() + loop_calls(
                *old(self),
                *resources,
                events@,
                old(dev).acquire_cursor,
            ),
    {
        let ghost base0 = *self;
        let ghost calls0 = dev.calls();
        let ghost total = loop_calls(base0, *resources, events@, dev.acquire_cursor);
        let ghost total_frames = frames_before_exit(events@);
        let mut frames: usize = 0;
        let mut i: usize = 0;
        let mut running = true;
        proof {
            assert(events@.skip(0) =~= events@);
        }
        while running && i < events.len()
            invariant
                dev.wf(),
                self.wf(*dev),
                base0.same_static_state(*self),
                base0.image_count == self.image_count,
                i <= events@.len(),
                frames <= i,
                dev.live@ == old(dev).live@,
                dev.next_handle == old(dev).next_handle,
                resources.framebuffers@.len() == self.image_count,
                running ==> frames + frames_before_exit(events@.skip(i as int)) == total_frames,
                !running ==> frames == total_frames,
                running ==> calls0 + total == dev.calls() + loop_calls(
                    base0,
                    *resources,
                    events@.skip(i as int),
                    dev.acquire_cursor,
                ),
                !running ==> dev.calls() == calls0 + total,
            decreases (if running { 1int } else { 0int }), events@.len() - i,
        {
            proof {
                assert(events@.skip(i as int)[0] == events@[i as int]);
                assert(events@.skip(i as int).skip(1) =~= events@.skip(i + 1 as int));
            }
            let event = events[i];
            let action = loop_control(event);
            match action {
                LoopAction::Exit => {
                    proof {
                        assert(loop_calls(
                            base0,
                            *resources,
                            events@.skip(i as int),
                            dev.acquire_cursor,
                        ) =~= Seq::<CallView>::empty());
                        assert(dev.calls() + Seq::<CallView>::empty() =~= dev.calls());
                    }
                    running = false;
                },
                LoopAction::RunFrame => {
                    let ghost cur = dev.acquire_cursor;
                    let ghost callsb = dev.calls();
                    let ghost selfb = *self;
                    let _ = self.render_frame(dev, resources);
                    frames = frames + 1;
                    i = i + 1;
                    proof {
                        let idx = (cur % base0.image_count) as u32;
                        assert(frame_calls(selfb, idx, *resources) =~= frame_calls(
                            base0,
                            idx,
                            *resources,
                        ));
                        assert(loop_calls(base0, *resources, events@.skip(i - 1 as int), cur)
                            =~= frame_calls(base0, idx, *resources) + loop_calls(
                            base0,
                            *resources,
                            events@.skip(i as int),
                            ((idx + 1) as u32) % base0.image_count,
                        ));
                        assert(callsb + (frame_calls(base0, idx, *resources) + loop_calls(
                            base0,
                            *resources,
                            events@.skip(i as int),
                            dev.acquire_cursor,
                        )) =~= (callsb + frame_calls(base0, idx, *resources)) + loop_calls(
                            base0,
                            *resources,
                            events@.skip(i as int),
                            dev.acquire_cursor,
                        ));
                    }
                },
                LoopAction::Ignore => {
                    i = i + 1;
                    proof {
                        assert(loop_calls(
                            base0,
                            *resources,
                            events@.skip(i - 1 as int),
                            dev.acquire_cursor,
                        ) =~= loop_calls(
                            base0,
                            *resources,
                            events@.skip(i as int),
                            dev.acquire_cursor,
                        ));
                    }
                },
            }
        }
        proof {
            if running {
                assert(events@.skip(i as int) =~= Seq::<LoopEvent>::empty());
                assert(loop_calls(base0, *resources, events@.skip(i as int), dev.acquire_cursor)
                    =~= Seq::<CallView>::empty());
                assert(dev.calls() + Seq::<CallView>::empty() =~= dev.calls());
            }
        }
        frames
    }
}


/// The create entries of the swapchain image views, in order.
pub open spec fn created_view_calls(views: Seq<u64>) -> Seq<CallView> {
    views.map(|i: int, v: u64| CallView::Create { kind: ResourceKind::ImageView, handle: v })
}

/// Creates one 2D color image view per presentable image. The handles come
/// out consecutively from the device's counter.
fn create_image_views(dev: &mut StubDevice, image_count: u32) -> (views: Vec<u64>)
    requires
        old(dev).wf(),
        old(dev).next_handle + image_count <= u64::MAX,
    ensures
        final(dev).wf(),
        views@.len() == image_count,
        forall|i: int|
            0 <= i < image_count ==> views@[i] == old(dev).next_handle + i,
        final(dev).next_handle == old(dev).next_handle + image_count,
        final(dev).live@ == old(dev).live@ + views@,
        final(dev).acquire_cursor == old(dev).acquire_cursor,
        final(dev).calls() == old(dev).calls() + created_view_calls(views@),
{
    let mut views: Vec<u64> = Vec::new();
    let mut created: u32 = 0;
    let ghost calls0 = dev.calls();
    let ghost live0 = dev.live@;
    let ghost handle0 = dev.next_handle;
    while created < image_count
        invariant
            dev.wf(),
            created <= image_count,
            handle0 + image_count <= u64::MAX,
            views@.len() == created,
            forall|i: int| 0 <= i < created ==> views@[i] == handle0 + i,
            dev.next_handle == handle0 + created,
            dev.live@ == live0 + views@,
            dev.acquire_cursor == old(dev).acquire_cursor,
            dev.calls() == calls0 + created_view_calls(views@),
        decreases image_count - created,
    {
        let view = dev.create(ResourceKind::ImageView);
        views.push(view);
        created = created + 1;
        proof {
            assert(dev.live@ =~= live0 + views@);
            assert(created_view_calls(views@) =~= created_view_calls(
                views@.drop_last(),
            ).push(CallView::Create { kind: ResourceKind::ImageView, handle: view }));
            assert(dev.calls() =~= calls0 + created_view_calls(views@));
        }
    }
    views
}

/// The call sequence of the context core: instance through the two command
/// buffers.
pub open spec fn core_calls(
    instance: u64,
    debug_messenger: u64,
    surface: u64,
    device: u64,
    queue_family_index: u32,
    command_submit_queue: u64,
    swapchain: u64,
    command_pool: u64,
    setup_command_buffer: u64,
    draw_command_buffer: u64,
) -> Seq<CallView> {
    seq![
        CallView::Create { kind: ResourceKind::Instance, handle: instance },
        CallView::Create { kind: ResourceKind::DebugMessenger, handle: debug_messenger },
        CallView::Create { kind: ResourceKind::Surface, handle: surface },
        CallView::Create { kind: ResourceKind::Device, handle: device },
        CallView::GetDeviceQueue { device, queue_family_index, queue: command_submit_queue },
        CallView::Create { kind: ResourceKind::Swapchain, handle: swapchain },
        CallView::Create { kind: ResourceKind::CommandPool, handle: command_pool },
        CallView::AllocateCommandBuffers {
            pool: command_pool,
            setup: setup_command_buffer,
            draw: draw_command_buffer,
        },
    ]
}

/// The call sequence of the depth and synchronization resources: depth image
/// and memory, the two pre-signaled reuse fences, the one-shot submission
/// that transitions the depth image's layout, the depth view, and the two
/// cross-frame semaphores.
pub open spec fn depth_and_sync_calls(
    depth_image: u64,
    depth_image_memory: u64,
    draw_fence: u64,
    setup_fence: u64,
    depth_image_view: u64,
    present_complete_semaphore: u64,
    rendering_complete_semaphore: u64,
    setup_command_buffer: u64,
    command_submit_queue: u64,
) -> Seq<CallView> {
    seq![
        CallView::Create { kind: ResourceKind::Image, handle: depth_image },
        CallView::Create { kind: ResourceKind::Memory, handle: depth_image_memory },
        CallView::BindImageMemory { image: depth_image, memory: depth_image_memory, offset: 0 },
        CallView::Create { kind: ResourceKind::Fence, handle: draw_fence },
        CallView::Create { kind: ResourceKind::Fence, handle: setup_fence },
    ] + protocol_calls(
        setup_command_buffer,
        setup_fence,
        command_submit_queue,
        Seq::<u64>::empty(),
        Seq::<u32>::empty(),
        Seq::<u64>::empty(),
        seq![GpuCommand::PipelineBarrier { image: depth_image }],
    ) + seq![
        CallView::Create { kind: ResourceKind::ImageView, handle: depth_image_view },
        CallView::Create { kind: ResourceKind::Semaphore, handle: present_complete_semaphore },
        CallView::Create { kind: ResourceKind::Semaphore, handle: rendering_complete_semaphore },
    ]
}

/// The core resources, created before the swapchain images' views.
struct CoreResources {
    instance: u64,
    debug_messenger: u64,
    surface: u64,
    device: u64,
    command_submit_queue: u64,
    swapchain: u64,
    command_pool: u64,
    setup_command_buffer: CommandBuffer,
    draw_command_buffer: CommandBuffer,
}

/// Creates the context core in construction order: instance, diagnostic
/// listener, surface, logical device, its queue, swapchain, command pool,
/// and the pool's two primary command buffers.
fn create_core(dev: &mut StubDevice, queue_family_index: u32) -> (core: CoreResources)
    requires
        old(dev).wf(),
        old(dev).next_handle + 9 <= u64::MAX,
    ensures
        final(dev).wf(),
        core.instance == old(dev).next_handle,
        core.debug_messenger == old(dev).next_handle + 1,
        core.surface == old(dev).next_handle + 2,
        core.device == old(dev).next_handle + 3,
        core.command_submit_queue == old(dev).next_handle + 4,
        core.swapchain == old(dev).next_handle + 5,
        core.command_pool == old(dev).next_handle + 6,
        core.setup_command_buffer.handle == old(dev).next_handle + 7,
        core.draw_command_buffer.handle == old(dev).next_handle + 8,
        core.setup_command_buffer.state == CommandBufferState::Ready,
        core.draw_command_buffer.state == CommandBufferState::Ready,
        final(dev).next_handle == old(dev).next_handle + 9,
        final(dev).live@ == old(dev).live@ + seq![
            core.instance,
            core.debug_messenger,
            core.surface,
            core.device,
            core.swapchain,
            core.command_pool,
        ],
        final(dev).acquire_cursor == old(dev).acquire_cursor,
        final(dev).calls() == old(dev).calls() + core_calls(
            core.instance,
            core.debug_messenger,
            core.surface,
            core.device,
            queue_family_index,
            core.command_submit_queue,
            core.swapchain,
            core.command_pool,
            core.setup_command_buffer.handle,
            core.draw_command_buffer.handle,
        ),
{
    let ghost calls0 = dev.calls();
    let ghost live0 = dev.live@;
    let instance = dev.create(ResourceKind::Instance);
    let debug_messenger = dev.create(ResourceKind::DebugMessenger);
    let surface = dev.create(ResourceKind::Surface);
    let device = dev.create(ResourceKind::Device);
    let command_submit_queue = dev.get_device_queue(device, queue_family_index);
    let swapchain = dev.create(ResourceKind::Swapchain);
    let command_pool = dev.create(ResourceKind::CommandPool);
    let (setup_command_buffer, draw_command_buffer) = dev.allocate_command_buffer_pair(
        command_pool,
    );
    let core = CoreResources {
        instance,
        debug_messenger,
        surface,
        device,
        command_submit_queue,
        swapchain,
        command_pool,
        setup_command_buffer,
        draw_command_buffer,
    };
    proof {
        assert(dev.live@ =~= live0 + seq![
            instance,
            debug_messenger,
            surface,
            device,
            swapchain,
            command_pool,
        ]);
        assert(dev.calls() =~= calls0 + core_calls(
            instance,
            debug_messenger,
            surface,
            device,
            queue_family_index,
            command_submit_queue,
            swapchain,
            command_pool,
            setup_command_buffer.handle,
            draw_command_buffer.handle,
        ));
    }
    core
}

/// The depth and synchronization resources.
struct SyncResources {
    depth_image: u64,
    depth_image_memory: u64,
    depth_image_view: u64,
    draw_command_buffer_reuse_fence: Fence,
    setup_command_buffer_reuse_fence: Fence,
    present_complete_semaphore: u64,
    rendering_complete_semaphore: u64,
}

/// Creates the depth image with its device memory bound at offset zero, the
/// two pre-signaled reuse fences, then runs the one-shot setup submission
/// that transitions the depth image from the undefined layout to the
/// depth-stencil-attachment-optimal layout, and finally creates the depth
/// view and the two cross-frame semaphores.
fn create_depth_and_sync(
    dev: &mut StubDevice,
    setup_command_buffer: &mut CommandBuffer,
    command_submit_queue: u64,
) -> (sync: SyncResources)
    requires
        old(dev).wf(),
        old(dev).next_handle + 7 <= u64::MAX,
    ensures
        final(dev).wf(),
        sync.depth_image == old(dev).next_handle,
        sync.depth_image_memory == old(dev).next_handle + 1,
        sync.draw_command_buffer_reuse_fence.handle == old(dev).next_handle + 2,
        sync.setup_command_buffer_reuse_fence.handle == old(dev).next_handle + 3,
        sync.depth_image_view == old(dev).next_handle + 4,
        sync.present_complete_semaphore == old(dev).next_handle + 5,
        sync.rendering_complete_semaphore == old(dev).next_handle + 6,
        sync.draw_command_buffer_reuse_fence.status == FenceStatus::Signaled,
        sync.setup_command_buffer_reuse_fence.status == FenceStatus::Pending,
        final(setup_command_buffer).handle == old(setup_command_buffer).handle,
        final(setup_command_buffer).state == CommandBufferState::Executable,
        final(dev).next_handle == old(dev).next_handle + 7,
        final(dev).live@ == old(dev).live@ + seq![
            sync.depth_image,
            sync.depth_image_memory,
            sync.draw_command_buffer_reuse_fence.handle,
            sync.setup_command_buffer_reuse_fence.handle,
            sync.depth_image_view,
            sync.present_complete_semaphore,
            sync.rendering_complete_semaphore,
        ],
        final(dev).acquire_cursor == old(dev).acquire_cursor,
        final(dev).calls() == old(dev).calls() + depth_and_sync_calls(
            sync.depth_image,
            sync.depth_image_memory,
            sync.draw_command_buffer_reuse_fence.handle,
            sync.setup_command_buffer_reuse_fence.handle,
            sync.depth_image_view,
            sync.present_complete_semaphore,
            sync.rendering_complete_semaphore,
            old(setup_command_buffer).handle,
            command_submit_queue,
        ),
{
    let ghost calls0 = dev.calls();
    let ghost live0 = dev.live@;

    let depth_image = dev.create(ResourceKind::Image);
    let depth_image_memory = dev.create(ResourceKind::Memory);
    proof {
        assert(dev.live@[dev.live@.len() - 2] == depth_image);
        assert(dev.live@[dev.live@.len() - 1] == depth_image_memory);
    }
    dev.bind_image_memory(depth_image, depth_image_memory, 0);

    let draw_command_buffer_reuse_fence = dev.create_fence();
    let mut setup_command_buffer_reuse_fence = dev.create_fence();

    let no_semaphores: Vec<u64> = Vec::new();
    let no_masks: Vec<u32> = Vec::new();
    let mut barrier_commands: Vec<GpuCommand> = Vec::new();
    barrier_commands.push(GpuCommand::PipelineBarrier { image: depth_image });
    proof {
        assert(dev.live@[dev.live@.len() - 1] == setup_command_buffer_reuse_fence.handle);
    }
    record_submit_commandbuffer(
        dev,
        setup_command_buffer,
        &mut setup_command_buffer_reuse_fence,
        command_submit_queue,
        &no_semaphores,
        &no_semaphores,
        &no_masks,
        &barrier_commands,
    );

    let depth_image_view = dev.create(ResourceKind::ImageView);
    let present_complete_semaphore = dev.create(ResourceKind::Semaphore);
    let rendering_complete_semaphore = dev.create(ResourceKind::Semaphore);

    let sync = SyncResources {
        depth_image,
        depth_image_memory,
        depth_image_view,
        draw_command_buffer_reuse_fence,
        setup_command_buffer_reuse_fence,
        present_complete_semaphore,
        rendering_complete_semaphore,
    };
    proof {
        assert(no_semaphores@ =~= Seq::<u64>::empty());
        assert(no_masks@ =~= Seq::<u32>::empty());
        assert(barrier_commands@ =~= seq![GpuCommand::PipelineBarrier { image: depth_image }]);
        assert(dev.live@ =~= live0 + seq![
            depth_image,
            depth_image_memory,
            draw_command_buffer_reuse_fence.handle,
            sync.setup_command_buffer_reuse_fence.handle,
            depth_image_view,
            present_complete_semaphore,
            rendering_complete_semaphore,
        ]);
        assert(dev.calls() =~= calls0 + depth_and_sync_calls(
            depth_image,
            depth_image_memory,
            draw_command_buffer_reuse_fence.handle,
            sync.setup_command_buffer_reuse_fence.handle,
            depth_image_view,
            present_complete_semaphore,
            rendering_complete_semaphore,
            old(setup_command_buffer).handle,
            command_submit_queue,
        ));
    }
    sync
}

/// The destroy entries of the swapchain image views, last-created first.
pub open spec fn destroyed_view_calls(views: Seq<u64>) -> Seq<CallView> {
    views.reverse().map(
        |i: int, v: u64| CallView::Destroy { kind: ResourceKind::ImageView, handle: v },
    )
}

/// The destroy call for one created resource.
pub open spec fn destroy_of(resource: (ResourceKind, u64)) -> CallView {
    CallView::Destroy { kind: resource.0, handle: resource.1 }
}

/// Law: teardown is idempotent-safe by construction — it is one device-idle
/// wait followed by exactly one destroy per created resource, in exactly the
/// reverse of the creation order.
pub proof fn lemma_teardown_reverses_construction(base: Base)
    ensures
        base.teardown_calls() =~= seq![CallView::WaitIdle] + base.created_resources().reverse().map(
            |i: int, r: (ResourceKind, u64)| destroy_of(r),
        ),
{
    let created = base.created_resources();
    let expected = seq![CallView::WaitIdle] + created.reverse().map(
        |i: int, r: (ResourceKind, u64)| destroy_of(r),
    );
    let n = base.present_image_views@.len() as int;
    assert(base.teardown_calls().len() == 14 + n);
    assert(expected.len() == 14 + n);
    assert forall|i: int| 0 <= i < 14 + n implies base.teardown_calls()[i] == expected[i] by {
        if 8 <= i < 8 + n {
            assert(base.teardown_calls()[i] == destroyed_view_calls(base.present_image_views@)[i
                - 8]);
            assert(destroyed_view_calls(base.present_image_views@)[i - 8]
                == CallView::Destroy {
                kind: ResourceKind::ImageView,
                handle: base.present_image_views@[n - 1 - (i - 8)],
            });
            assert(created[6 + (n - 1 - (i - 8))] == (
                ResourceKind::ImageView,
                base.present_image_views@[n - 1 - (i - 8)],
            ));
            assert(created.reverse()[i - 1] == created[13 + n - i]);
            assert(expected[i] == destroy_of(created[13 + n - i]));
        }
    }
}

/// The application-supplied resources a frame's draw commands reference.
pub struct FrameResources {
    /// One framebuffer per presentable image, indexed by acquired image.
    pub framebuffers: Vec<u64>,
    /// The graphics pipeline bound for the draw.
    pub graphics_pipeline: u64,
    /// The vertex buffer bound for the draw.
    pub vertex_buffer: u64,
    /// The index buffer bound for the draw.
    pub index_buffer: u64,
    /// How many indices the draw consumes.
    pub index_count: u32,
}

/// The draw commands of one frame: a render pass scoped over the
/// framebuffer of the acquired image, pipeline bind, dynamic viewport and
/// scissor, vertex and index buffer binds, and one indexed draw.
pub open spec fn frame_commands(resources: FrameResources, image_index: u32) -> Seq<GpuCommand> {
    seq![
        GpuCommand::BeginRenderPass { framebuffer: resources.framebuffers@[image_index as int] },
        GpuCommand::BindPipeline { pipeline: resources.graphics_pipeline },
        GpuCommand::SetViewport,
        GpuCommand::SetScissor,
        GpuCommand::BindVertexBuffer { buffer: resources.vertex_buffer },
        GpuCommand::BindIndexBuffer { buffer: resources.index_buffer },
        GpuCommand::DrawIndexed { index_count: resources.index_count },
        GpuCommand::EndRenderPass,
    ]
}

/// The exact call sequence of one frame: acquire, the fence-gated draw
/// submission with its semaphore pairing, then the present.
pub open spec fn frame_calls(base: Base, image_index: u32, resources: FrameResources) -> Seq<
    CallView,
> {
    seq![
        CallView::AcquireImage {
            swapchain: base.swapchain,
            signal_semaphore: base.present_complete_semaphore,
            image_index,
        },
    ] + protocol_calls(
        base.draw_command_buffer.handle,
        base.draw_command_buffer_reuse_fence.handle,
        base.command_submit_queue,
        seq![base.present_complete_semaphore],
        seq![PIPELINE_STAGE_COLOR_ATTACHMENT_OUTPUT],
        seq![base.rendering_complete_semaphore],
        frame_commands(resources, image_index),
    ) + seq![
        CallView::Present {
            queue: base.command_submit_queue,
            swapchain: base.swapchain,
            wait_semaphore: base.rendering_complete_semaphore,
            image_index,
        },
    ]
}

/// Law: a frame's device-side ordering is semaphore-mediated and fixed —
/// the acquire signals the present-complete semaphore and comes first; the
/// one submission waits on exactly that semaphore at the
/// color-attachment-output stage and signals the rendering-complete
/// semaphore; the present comes last and waits on exactly the
/// rendering-complete semaphore.
pub proof fn lemma_frame_semaphore_pairing(base: Base, image_index: u32, resources: FrameResources)
    ensures
        ({
            let calls = frame_calls(base, image_index, resources);
            &&& calls.len() == 16
            &&& calls[0] == CallView::AcquireImage {
                swapchain: base.swapchain,
                signal_semaphore: base.present_complete_semaphore,
                image_index,
            }
            &&& calls[14] == CallView::Submit {
                queue: base.command_submit_queue,
                command_buffer: base.draw_command_buffer.handle,
                fence: base.draw_command_buffer_reuse_fence.handle,
                wait_semaphores: seq![base.present_complete_semaphore],
                wait_stage_masks: seq![PIPELINE_STAGE_COLOR_ATTACHMENT_OUTPUT],
                signal_semaphores: seq![base.rendering_complete_semaphore],
            }
            &&& calls[15] == CallView::Present {
                queue: base.command_submit_queue,
                swapchain: base.swapchain,
                wait_semaphore: base.rendering_complete_semaphore,
                image_index,
            }
        }),
{
    let calls = frame_calls(base, image_index, resources);
    assert(frame_commands(resources, image_index).len() == 8);
    assert(calls.len() == 16);
}

/// One event of the windowing system, reduced to what the loop decides on.
#[derive(Clone, Copy, PartialEq, Eq, Structural, Debug)]
pub enum LoopEvent {
    /// The window was asked to close.
    CloseRequested,
    /// The escape key was pressed.
    EscapePressed,
    /// All pending events were drained: time to render one frame.
    MainEventsCleared,
    /// Any other event; the loop ignores it.
    Other,
}

/// What the loop does with one event.
#[derive(Clone, Copy, PartialEq, Eq, Structural, Debug)]
pub enum LoopAction {
    /// Terminate the loop.
    Exit,
    /// Invoke the per-frame work exactly once.
    RunFrame,
    /// Do nothing and keep polling.
    Ignore,
}

/// The loop's decision for one event: a close request or an escape press
/// terminates; an events-drained tick runs one frame; all else is ignored.
pub fn loop_control(event: LoopEvent) -> (action: LoopAction)
    ensures
        action is Exit <==> (event is CloseRequested || event is EscapePressed),
        action is RunFrame <==> event is MainEventsCleared,
        action is Ignore <==> event is Other,
{
    match event {
        LoopEvent::CloseRequested => LoopAction::Exit,
        LoopEvent::EscapePressed => LoopAction::Exit,
        LoopEvent::MainEventsCleared => LoopAction::RunFrame,
        LoopEvent::Other => LoopAction::Ignore,
    }
}

/// How many frames the loop renders before its first terminating event —
/// one per events-drained tick, none after a close request or escape press.
pub open spec fn frames_before_exit(events: Seq<LoopEvent>) -> nat
    decreases events.len(),
{
    if events.len() == 0 {
        0
    } else {
        match events[0] {
            LoopEvent::CloseRequested => 0,
            LoopEvent::EscapePressed => 0,
            LoopEvent::MainEventsCleared => 1 + frames_before_exit(events.skip(1)),
            LoopEvent::Other => frames_before_exit(events.skip(1)),
        }
    }
}

/// The exact call sequence the loop makes for an event stream, starting
/// from the given acquire cursor.
pub open spec fn loop_calls(
    base: Base,
    resources: FrameResources,
    events: Seq<LoopEvent>,
    cursor: u32,
) -> Seq<CallView>
    decreases events.len(),
{
    if events.len() == 0 || base.image_count == 0 {
        Seq::empty()
    } else {
        match events[0] {
            LoopEvent::CloseRequested => Seq::empty(),
            LoopEvent::EscapePressed => Seq::empty(),
            LoopEvent::MainEventsCleared => {
                let image_index = (cursor % base.image_count) as u32;
                frame_calls(base, image_index, resources) + loop_calls(
                    base,
                    resources,
                    events.skip(1),
                    ((image_index + 1) as u32) % base.image_count,
                )
            },
            LoopEvent::Other => loop_calls(base, resources, events.skip(1), cursor),
        }
    }
}

} // verus!
