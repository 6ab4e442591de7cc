//! A stub GPU device that records every driver call it is asked to make.
//!
//! The engine's correctness arguments are about call order and handle
//! discipline: resources are destroyed in reverse creation order and never
//! used after destruction, fences gate command-buffer reuse, and the
//! per-frame semaphore pairing is fixed. The stub device makes those
//! arguments checkable: every operation appends to a trace, handles are
//! allocated from a counter and tracked while live, and each operation's
//! contract states the validity rule the real driver would enforce.

use vstd::prelude::*;

verus! {

/// The kinds of device-level resources the engine creates and destroys.
#[derive(Clone, Copy, PartialEq, Eq, Structural, Debug)]
pub enum ResourceKind {
    /// The API instance.
    Instance,
    /// The diagnostic-message listener.
    DebugMessenger,
    /// The presentation surface.
    Surface,
    /// The logical device.
    Device,
    /// The swapchain.
    Swapchain,
    /// The command pool; destroying it implicitly frees its command buffers.
    CommandPool,
    /// A color or depth image view.
    ImageView,
    /// An image object.
    Image,
    /// A buffer object.
    Buffer,
    /// A device memory allocation.
    Memory,
    /// A host-observable completion fence.
    Fence,
    /// A device-side ordering semaphore.
    Semaphore,
}

/// A command recorded into an open command buffer.
#[derive(Clone, Copy, PartialEq, Eq, Structural, Debug)]
pub enum GpuCommand {
    /// A pipeline barrier transitioning an image's layout.
    PipelineBarrier {
        /// The image whose layout is transitioned.
        image: u64,
    },
    /// Begin a render pass targeting one framebuffer.
    BeginRenderPass {
        /// The framebuffer rendered into.
        framebuffer: u64,
    },
    /// Bind a graphics pipeline.
    BindPipeline {
        /// The pipeline bound.
        pipeline: u64,
    },
    /// Set the viewport dynamically.
    SetViewport,
    /// Set the scissor rectangle dynamically.
    SetScissor,
    /// Bind a vertex buffer.
    BindVertexBuffer {
        /// The buffer bound.
        buffer: u64,
    },
    /// Bind an index buffer.
    BindIndexBuffer {
        /// The buffer bound.
        buffer: u64,
    },
    /// Issue an indexed draw call.
    DrawIndexed {
        /// How many indices are drawn.
        index_count: u32,
    },
    /// End the open render pass.
    EndRenderPass,
}

/// One recorded driver call.
#[derive(Debug)]
pub enum Call {
    /// A resource was created.
    Create {
        /// What was created.
        kind: ResourceKind,
        /// The handle handed out for it.
        handle: u64,
    },
    /// A resource was destroyed.
    Destroy {
        /// What was destroyed.
        kind: ResourceKind,
        /// The handle that was destroyed.
        handle: u64,
    },
    /// Two primary-level command buffers were allocated from a pool.
    AllocateCommandBuffers {
        /// The owning pool.
        pool: u64,
        /// The first buffer handed out (the setup buffer).
        setup: u64,
        /// The second buffer handed out (the draw buffer).
        draw: u64,
    },
    /// A queue handle was retrieved from the device.
    GetDeviceQueue {
        /// The logical device.
        device: u64,
        /// The queue family the queue belongs to.
        queue_family_index: u32,
        /// The handle handed out for the queue.
        queue: u64,
    },
    /// Backing memory was bound to an image.
    BindImageMemory {
        /// The image bound to.
        image: u64,
        /// The memory bound.
        memory: u64,
        /// The byte offset of the binding.
        offset: u64,
    },
    /// Backing memory was bound to a buffer.
    BindBufferMemory {
        /// The buffer bound to.
        buffer: u64,
        /// The memory bound.
        memory: u64,
        /// The byte offset of the binding.
        offset: u64,
    },
    /// A memory range was mapped into host address space.
    MapMemory {
        /// The memory mapped.
        memory: u64,
        /// The byte offset of the mapping.
        offset: u64,
        /// The byte size of the mapping.
        size: u64,
    },
    /// A host mapping was released.
    UnmapMemory {
        /// The memory unmapped.
        memory: u64,
    },
    /// The host blocked until a fence signaled.
    FenceWait {
        /// The fence waited on.
        fence: u64,
    },
    /// A fence was reset to unsignaled.
    FenceReset {
        /// The fence reset.
        fence: u64,
    },
    /// A command buffer was reset, releasing its resources.
    CommandBufferReset {
        /// The command buffer reset.
        command_buffer: u64,
    },
    /// Recording began on a command buffer (one-time-submit usage).
    CommandBufferBegin {
        /// The command buffer opened.
        command_buffer: u64,
    },
    /// A command was recorded into an open command buffer.
    CommandRecorded {
        /// The command buffer recorded into.
        command_buffer: u64,
        /// The command recorded.
        command: GpuCommand,
    },
    /// Recording ended on a command buffer.
    CommandBufferEnd {
        /// The command buffer closed.
        command_buffer: u64,
    },
    /// A command buffer was submitted to a queue.
    Submit {
        /// The queue submitted to.
        queue: u64,
        /// The single command buffer submitted.
        command_buffer: u64,
        /// The fence the device signals when the work completes.
        fence: u64,
        /// Semaphores the submission waits on, paired positionally with the
        /// stage masks.
        wait_semaphores: Vec<u64>,
        /// Stage masks at which each wait semaphore is waited on.
        wait_stage_masks: Vec<u32>,
        /// Semaphores the submission signals on completion.
        signal_semaphores: Vec<u64>,
    },
    /// The next presentable image was acquired from a swapchain.
    AcquireImage {
        /// The swapchain acquired from.
        swapchain: u64,
        /// The semaphore signaled once the image is ready.
        signal_semaphore: u64,
        /// The 0-based index of the acquired image.
        image_index: u32,
    },
    /// An acquired image was presented.
    Present {
        /// The queue presented on.
        queue: u64,
        /// The swapchain presented to.
        swapchain: u64,
        /// The semaphore the presentation waits on.
        wait_semaphore: u64,
        /// The index of the image presented.
        image_index: u32,
    },
    /// The host blocked until the device went idle.
    WaitIdle,
}

/// The mathematical value of one recorded driver call.
pub enum CallView {
    /// A resource was created.
    Create { kind: ResourceKind, handle: u64 },
    /// A resource was destroyed.
    Destroy { kind: ResourceKind, handle: u64 },
    /// Two primary-level command buffers were allocated from a pool.
    AllocateCommandBuffers { pool: u64, setup: u64, draw: u64 },
    /// A queue handle was retrieved from the device.
    GetDeviceQueue { device: u64, queue_family_index: u32, queue: u64 },
    /// Backing memory was bound to an image.
    BindImageMemory { image: u64, memory: u64, offset: u64 },
    /// Backing memory was bound to a buffer.
    BindBufferMemory { buffer: u64, memory: u64, offset: u64 },
    /// A memory range was mapped into host address space.
    MapMemory { memory: u64, offset: u64, size: u64 },
    /// A host mapping was released.
    UnmapMemory { memory: u64 },
    /// The host blocked until a fence signaled.
    FenceWait { fence: u64 },
    /// A fence was reset to unsignaled.
    FenceReset { fence: u64 },
    /// A command buffer was reset.
    CommandBufferReset { command_buffer: u64 },
    /// Recording began on a command buffer.
    CommandBufferBegin { command_buffer: u64 },
    /// A command was recorded.
    CommandRecorded { command_buffer: u64, command: GpuCommand },
    /// Recording ended on a command buffer.
    CommandBufferEnd { command_buffer: u64 },
    /// A command buffer was submitted to a queue.
    Submit {
        queue: u64,
        command_buffer: u64,
        fence: u64,
        wait_semaphores: Seq<u64>,
        wait_stage_masks: Seq<u32>,
        signal_semaphores: Seq<u64>,
    },
    /// The next presentable image was acquired.
    AcquireImage { swapchain: u64, signal_semaphore: u64, image_index: u32 },
    /// An acquired image was presented.
    Present { queue: u64, swapchain: u64, wait_semaphore: u64, image_index: u32 },
    /// The host blocked until the device went idle.
    WaitIdle,
}

/// The mathematical value of a recorded call.
pub open spec fn call_view(c: Call) -> CallView {
    match c {
        Call::Create { kind, handle } => CallView::Create { kind, handle },
        Call::Destroy { kind, handle } => CallView::Destroy { kind, handle },
        Call::AllocateCommandBuffers { pool, setup, draw } => CallView::AllocateCommandBuffers {
            pool,
            setup,
            draw,
        },
        Call::GetDeviceQueue { device, queue_family_index, queue } => CallView::GetDeviceQueue {
            device,
            queue_family_index,
            queue,
        },
        Call::BindImageMemory { image, memory, offset } => CallView::BindImageMemory {
            image,
            memory,
            offset,
        },
        Call::BindBufferMemory { buffer, memory, offset } => CallView::BindBufferMemory {
            buffer,
            memory,
            offset,
        },
        Call::MapMemory { memory, offset, size } => CallView::MapMemory { memory, offset, size },
        Call::UnmapMemory { memory } => CallView::UnmapMemory { memory },
        Call::FenceWait { fence } => CallView::FenceWait { fence },
        Call::FenceReset { fence } => CallView::FenceReset { fence },
        Call::CommandBufferReset { command_buffer } => CallView::CommandBufferReset {
            command_buffer,
        },
        Call::CommandBufferBegin { command_buffer } => CallView::CommandBufferBegin {
            command_buffer,
        },
        Call::CommandRecorded { command_buffer, command } => CallView::CommandRecorded {
            command_buffer,
            command,
        },
        Call::CommandBufferEnd { command_buffer } => CallView::CommandBufferEnd { command_buffer },
        Call::Submit {
            queue,
            command_buffer,
            fence,
            wait_semaphores,
            wait_stage_masks,
            signal_semaphores,
        } => CallView::Submit {
            queue,
            command_buffer,
            fence,
            wait_semaphores: wait_semaphores@,
            wait_stage_masks: wait_stage_masks@,
            signal_semaphores: signal_semaphores@,
        },
        Call::AcquireImage { swapchain, signal_semaphore, image_index } => CallView::AcquireImage {
            swapchain,
            signal_semaphore,
            image_index,
        },
        Call::Present { queue, swapchain, wait_semaphore, image_index } => CallView::Present {
            queue,
            swapchain,
            wait_semaphore,
            image_index,
        },
        Call::WaitIdle => CallView::WaitIdle,
    }
}

/// The mathematical value of a whole trace.
pub open spec fn trace_view(t: Seq<Call>) -> Seq<CallView> {
    t.map(|i: int, c: Call| call_view(c))
}

/// Appending one call to a trace appends its view to the trace's view.
pub proof fn lemma_trace_view_push(t: Seq<Call>, c: Call)
    ensures
        trace_view(t.push(c)) =~= trace_view(t).push(call_view(c)),
{
}

/// No handle occurs twice.
pub open spec fn distinct_handles(s: Seq<u64>) -> bool {
    forall|i: int, j: int| 0 <= i < j < s.len() ==> s[i] != s[j]
}

/// Every handle is below the allocation counter.
pub open spec fn handles_below(s: Seq<u64>, bound: u64) -> bool {
    forall|i: int| 0 <= i < s.len() ==> s[i] < bound
}

/// The two states of a host-observable fence, plus the in-between state in
/// which submitted device work will signal it.
#[derive(Clone, Copy, PartialEq, Eq, Structural, Debug)]
pub enum FenceStatus {
    /// The fence is signaled; a host wait returns at once.
    Signaled,
    /// The fence is unsignaled and no submission is pending on it; a host
    /// wait would block forever.
    Unsignaled,
    /// The fence is unsignaled but the device owes it a signal: submitted
    /// work is still running, and a host wait returns once it finishes.
    Pending,
}

/// A host-observable completion fence.
#[derive(PartialEq, Eq, Structural, Debug)]
pub struct Fence {
    /// The driver handle of the fence.
    pub handle: u64,
    /// The fence's current state.
    pub status: FenceStatus,
}

/// The recording states of a command buffer.
#[derive(Clone, Copy, PartialEq, Eq, Structural, Debug)]
pub enum CommandBufferState {
    /// Reset and ready for a new recording.
    Ready,
    /// Between begin and end: commands may be recorded.
    Recording,
    /// Ended: the recording is complete and may be submitted.
    Executable,
}

/// A primary-level command buffer.
#[derive(PartialEq, Eq, Structural, Debug)]
pub struct CommandBuffer {
    /// The driver handle of the command buffer.
    pub handle: u64,
    /// The command buffer's recording state.
    pub state: CommandBufferState,
}

/// A stub device: allocates handles from a counter, tracks which are live,
/// and records every call in order.
pub struct StubDevice {
    /// The next handle to hand out; handles are never reused.
    pub next_handle: u64,
    /// Handles created and not yet destroyed.
    pub live: Vec<u64>,
    /// Drives the round-robin choice of the next presentable image.
    pub acquire_cursor: u32,
    /// Every call made so far, in order.
    pub trace: Vec<Call>,
}

impl StubDevice {
    /// Live handles are pairwise distinct and below the allocation counter.
    pub open spec fn wf(self) -> bool {
        &&& distinct_handles(self.live@)
        &&& handles_below(self.live@, self.next_handle)
    }

    /// The handle was created and has not been destroyed.
    pub open spec fn is_live(self, handle: u64) -> bool {
        self.live@.contains(handle)
    }

    /// The mathematical value of the call trace.
    pub open spec fn calls(self) -> Seq<CallView> {
        trace_view(self.trace@)
    }

    /// A fresh stub device: no calls made, nothing live.
    pub fn new() -> (d: StubDevice)
        ensures
            d.wf(),
            d.live@ == Seq::<u64>::empty(),
            d.calls() == Seq::<CallView>::empty(),
            d.next_handle == 1,
            d.acquire_cursor == 0,
    {
        let d = StubDevice { next_handle: 1, live: Vec::new(), acquire_cursor: 0, trace: Vec::new() };
        proof {
            assert(d.calls() =~= Seq::<CallView>::empty());
        }
        d
    }

    /// Creates a resource of the given kind and returns its fresh handle.
    pub fn create(&mut self, kind: ResourceKind) -> (handle: u64)
        requires
            old(self).wf(),
            old(self).next_handle < u64::MAX,
        ensures
            final(self).wf(),
            handle == old(self).next_handle,
            !old(self).is_live(handle),
            final(self).is_live(handle),
            final(self).live@ == old(self).live@.push(handle),
            final(self).next_handle == old(self).next_handle + 1,
            final(self).acquire_cursor == old(self).acquire_cursor,
            final(self).calls() == old(self).calls().push(CallView::Create { kind, handle }),
    {
        let handle = self.next_handle;
        self.next_handle = self.next_handle + 1;
        self.live.push(handle);
        self.trace.push(Call::Create { kind, handle });
        proof {
            lemma_trace_view_push(old(self).trace@, Call::Create { kind, handle });
            assert(self.live@[self.live@.len() - 1] == handle);
        }
        handle
    }

    /// Destroys a live resource. The requirement that the handle still be
    /// live is exactly the no-use-after-destroy rule.
    pub fn destroy(&mut self, kind: ResourceKind, handle: u64)
        requires
            old(self).wf(),
            old(self).is_live(handle),
        ensures
            final(self).wf(),
            forall|h: u64| final(self).is_live(h) <==> (old(self).is_live(h) && h != handle),
            final(self).live@.len() == old(self).live@.len() - 1,
            final(self).next_handle == old(self).next_handle,
            final(self).acquire_cursor == old(self).acquire_cursor,
            final(self).calls() == old(self).calls().push(CallView::Destroy { kind, handle }),
    {
        let i = index_of_handle(&self.live, handle);
        self.live.remove(i);
        self.trace.push(Call::Destroy { kind, handle });
        proof {
            lemma_trace_view_push(old(self).trace@, Call::Destroy { kind, handle });
            lemma_remove_keeps_distinct(old(self).live@, i as int);
            assert(handles_below(self.live@, self.next_handle));
        }
    }

    /// Blocks until the fence is signaled. The wait is unbounded, so a wait
    /// on an unsignaled fence with no pending submission would hang the
    /// process forever; the contract forbids exactly that.
    pub fn wait_for_fence(&mut self, fence: &mut Fence)
        requires
            old(self).wf(),
            old(self).is_live(old(fence).handle),
            old(fence).status != FenceStatus::Unsignaled,
        ensures
            final(self).wf(),
            final(fence).handle == old(fence).handle,
            final(fence).status == FenceStatus::Signaled,
            final(self).live@ == old(self).live@,
            final(self).next_handle == old(self).next_handle,
            final(self).acquire_cursor == old(self).acquire_cursor,
            final(self).calls() == old(self).calls().push(CallView::FenceWait { fence: final(fence).handle }),
    {
        fence.status = FenceStatus::Signaled;
        self.trace.push(Call::FenceWait { fence: fence.handle });
        proof {
            lemma_trace_view_push(old(self).trace@, Call::FenceWait { fence: fence.handle });
        }
    }

    /// Resets a fence to unsignaled. A fence the device still owes a signal
    /// must not be reset.
    pub fn reset_fence(&mut self, fence: &mut Fence)
        requires
            old(self).wf(),
            old(self).is_live(old(fence).handle),
            old(fence).status != FenceStatus::Pending,
        ensures
            final(self).wf(),
            final(fence).handle == old(fence).handle,
            final(fence).status == FenceStatus::Unsignaled,
            final(self).live@ == old(self).live@,
            final(self).next_handle == old(self).next_handle,
            final(self).acquire_cursor == old(self).acquire_cursor,
            final(self).calls() == old(self).calls().push(CallView::FenceReset { fence: final(fence).handle }),
    {
        fence.status = FenceStatus::Unsignaled;
        self.trace.push(Call::FenceReset { fence: fence.handle });
        proof {
            lemma_trace_view_push(old(self).trace@, Call::FenceReset { fence: fence.handle });
        }
    }

    /// Creates a fence. Fences are always created pre-signaled, so the first
    /// wait on them never blocks.
    pub fn create_fence(&mut self) -> (f: Fence)
        requires
            old(self).wf(),
            old(self).next_handle < u64::MAX,
        ensures
            final(self).wf(),
            f.status == FenceStatus::Signaled,
            f.handle == old(self).next_handle,
            !old(self).is_live(f.handle),
            final(self).is_live(f.handle),
            final(self).live@ == old(self).live@.push(f.handle),
            final(self).next_handle == old(self).next_handle + 1,
            final(self).acquire_cursor == old(self).acquire_cursor,
            final(self).calls() == old(self).calls().push(
                CallView::Create { kind: ResourceKind::Fence, handle: f.handle },
            ),
    {
        let handle = self.create(ResourceKind::Fence);
        Fence { handle, status: FenceStatus::Signaled }
    }

    /// Creates a semaphore.
    pub fn create_semaphore(&mut self) -> (handle: u64)
        requires
            old(self).wf(),
            old(self).next_handle < u64::MAX,
        ensures
            final(self).wf(),
            handle == old(self).next_handle,
            !old(self).is_live(handle),
            final(self).is_live(handle),
            final(self).live@ == old(self).live@.push(handle),
            final(self).next_handle == old(self).next_handle + 1,
            final(self).acquire_cursor == old(self).acquire_cursor,
            final(self).calls() == old(self).calls().push(
                CallView::Create { kind: ResourceKind::Semaphore, handle },
            ),
    {
        self.create(ResourceKind::Semaphore)
    }

    /// Allocates the pool's two primary-level command buffers: the first is
    /// the setup buffer, the second the draw buffer. The pool owns them, so
    /// they are not tracked as individually destroyable.
    pub fn allocate_command_buffer_pair(&mut self, pool: u64) -> (pair: (CommandBuffer,
        CommandBuffer))
        requires
            old(self).wf(),
            old(self).is_live(pool),
            old(self).next_handle < u64::MAX - 1,
        ensures
            final(self).wf(),
            pair.0.state == CommandBufferState::Ready,
            pair.1.state == CommandBufferState::Ready,
            pair.0.handle == old(self).next_handle,
            pair.1.handle == old(self).next_handle + 1,
            final(self).live@ == old(self).live@,
            final(self).next_handle == old(self).next_handle + 2,
            final(self).acquire_cursor == old(self).acquire_cursor,
            final(self).calls() == old(self).calls().push(
                CallView::AllocateCommandBuffers {
                    pool,
                    setup: pair.0.handle,
                    draw: pair.1.handle,
                },
            ),
    {
        let setup = self.next_handle;
        let draw = self.next_handle + 1;
        self.next_handle = self.next_handle + 2;
        self.trace.push(Call::AllocateCommandBuffers { pool, setup, draw });
        proof {
            lemma_trace_view_push(
                old(self).trace@,
                Call::AllocateCommandBuffers { pool, setup, draw },
            );
        }
        (
            CommandBuffer { handle: setup, state: CommandBufferState::Ready },
            CommandBuffer { handle: draw, state: CommandBufferState::Ready },
        )
    }

    /// Retrieves a queue of the given family from the device. Queues are
    /// device-owned and never destroyed individually.
    pub fn get_device_queue(&mut self, device: u64, queue_family_index: u32) -> (queue: u64)
        requires
            old(self).wf(),
            old(self).is_live(device),
            old(self).next_handle < u64::MAX,
        ensures
            final(self).wf(),
            queue == old(self).next_handle,
            final(self).live@ == old(self).live@,
            final(self).next_handle == old(self).next_handle + 1,
            final(self).acquire_cursor == old(self).acquire_cursor,
            final(self).calls() == old(self).calls().push(
                CallView::GetDeviceQueue { device, queue_family_index, queue },
            ),
    {
        let queue = self.next_handle;
        self.next_handle = self.next_handle + 1;
        self.trace.push(Call::GetDeviceQueue { device, queue_family_index, queue });
        proof {
            lemma_trace_view_push(
                old(self).trace@,
                Call::GetDeviceQueue { device, queue_family_index, queue },
            );
        }
        queue
    }

    /// Binds backing memory to an image. Binding happens exactly once per
    /// resource, after allocation and before any GPU access.
    pub fn bind_image_memory(&mut self, image: u64, memory: u64, offset: u64)
        requires
            old(self).wf(),
            old(self).is_live(image),
            old(self).is_live(memory),
        ensures
            final(self).wf(),
            final(self).live@ == old(self).live@,
            final(self).next_handle == old(self).next_handle,
            final(self).acquire_cursor == old(self).acquire_cursor,
            final(self).calls() == old(self).calls().push(
                CallView::BindImageMemory { image, memory, offset },
            ),
    {
        self.trace.push(Call::BindImageMemory { image, memory, offset });
        proof {
            lemma_trace_view_push(old(self).trace@, Call::BindImageMemory { image, memory, offset });
        }
    }

    /// Binds backing memory to a buffer. Binding happens exactly once per
    /// resource, after allocation and before any GPU access.
    pub fn bind_buffer_memory(&mut self, buffer: u64, memory: u64, offset: u64)
        requires
            old(self).wf(),
            old(self).is_live(buffer),
            old(self).is_live(memory),
        ensures
            final(self).wf(),
            final(self).live@ == old(self).live@,
            final(self).next_handle == old(self).next_handle,
            final(self).acquire_cursor == old(self).acquire_cursor,
            final(self).calls() == old(self).calls().push(
                CallView::BindBufferMemory { buffer, memory, offset },
            ),
    {
        self.trace.push(Call::BindBufferMemory { buffer, memory, offset });
        proof {
            lemma_trace_view_push(
                old(self).trace@,
                Call::BindBufferMemory { buffer, memory, offset },
            );
        }
    }

    /// Maps a range of a memory allocation into host address space.
    pub fn map_memory(&mut self, memory: u64, offset: u64, size: u64)
        requires
            old(self).wf(),
            old(self).is_live(memory),
        ensures
            final(self).wf(),
            final(self).live@ == old(self).live@,
            final(self).next_handle == old(self).next_handle,
            final(self).acquire_cursor == old(self).acquire_cursor,
            final(self).calls() == old(self).calls().push(
                CallView::MapMemory { memory, offset, size },
            ),
    {
        self.trace.push(Call::MapMemory { memory, offset, size });
        proof {
            lemma_trace_view_push(old(self).trace@, Call::MapMemory { memory, offset, size });
        }
    }

    /// Releases a host mapping.
    pub fn unmap_memory(&mut self, memory: u64)
        requires
            old(self).wf(),
            old(self).is_live(memory),
        ensures
            final(self).wf(),
            final(self).live@ == old(self).live@,
            final(self).next_handle == old(self).next_handle,
            final(self).acquire_cursor == old(self).acquire_cursor,
            final(self).calls() == old(self).calls().push(CallView::UnmapMemory { memory }),
    {
        self.trace.push(Call::UnmapMemory { memory });
        proof {
            lemma_trace_view_push(old(self).trace@, Call::UnmapMemory { memory });
        }
    }

    /// Resets a command buffer, releasing the resources it held.
    pub fn reset_command_buffer(&mut self, command_buffer: &mut CommandBuffer)
        requires
            old(self).wf(),
        ensures
            final(self).wf(),
            final(command_buffer).handle == old(command_buffer).handle,
            final(command_buffer).state == CommandBufferState::Ready,
            final(self).live@ == old(self).live@,
            final(self).next_handle == old(self).next_handle,
            final(self).acquire_cursor == old(self).acquire_cursor,
            final(self).calls() == old(self).calls().push(
                CallView::CommandBufferReset { command_buffer: final(command_buffer).handle },
            ),
    {
        command_buffer.state = CommandBufferState::Ready;
        self.trace.push(Call::CommandBufferReset { command_buffer: command_buffer.handle });
        proof {
            lemma_trace_view_push(
                old(self).trace@,
                Call::CommandBufferReset { command_buffer: command_buffer.handle },
            );
        }
    }

    /// Begins recording on a reset command buffer, with a one-time-submit
    /// usage hint.
    pub fn begin_command_buffer(&mut self, command_buffer: &mut CommandBuffer)
        requires
            old(self).wf(),
            old(command_buffer).state == CommandBufferState::Ready,
        ensures
            final(self).wf(),
            final(command_buffer).handle == old(command_buffer).handle,
            final(command_buffer).state == CommandBufferState::Recording,
            final(self).live@ == old(self).live@,
            final(self).next_handle == old(self).next_handle,
            final(self).acquire_cursor == old(self).acquire_cursor,
            final(self).calls() == old(self).calls().push(
                CallView::CommandBufferBegin { command_buffer: final(command_buffer).handle },
            ),
    {
        command_buffer.state = CommandBufferState::Recording;
        self.trace.push(Call::CommandBufferBegin { command_buffer: command_buffer.handle });
        proof {
            lemma_trace_view_push(
                old(self).trace@,
                Call::CommandBufferBegin { command_buffer: command_buffer.handle },
            );
        }
    }

    /// Records one command into an open command buffer.
    pub fn record_command(&mut self, command_buffer: &CommandBuffer, command: GpuCommand)
        requires
            old(self).wf(),
            command_buffer.state == CommandBufferState::Recording,
        ensures
            final(self).wf(),
            final(self).live@ == old(self).live@,
            final(self).next_handle == old(self).next_handle,
            final(self).acquire_cursor == old(self).acquire_cursor,
            final(self).calls() == old(self).calls().push(
                CallView::CommandRecorded { command_buffer: command_buffer.handle, command },
            ),
    {
        self.trace.push(
            Call::CommandRecorded { command_buffer: command_buffer.handle, command },
        );
        proof {
            lemma_trace_view_push(
                old(self).trace@,
                Call::CommandRecorded { command_buffer: command_buffer.handle, command },
            );
        }
    }

    /// Ends recording; the command buffer becomes executable.
    pub fn end_command_buffer(&mut self, command_buffer: &mut CommandBuffer)
        requires
            old(self).wf(),
            old(command_buffer).state == CommandBufferState::Recording,
        ensures
            final(self).wf(),
            final(command_buffer).handle == old(command_buffer).handle,
            final(command_buffer).state == CommandBufferState::Executable,
            final(self).live@ == old(self).live@,
            final(self).next_handle == old(self).next_handle,
            final(self).acquire_cursor == old(self).acquire_cursor,
            final(self).calls() == old(self).calls().push(
                CallView::CommandBufferEnd { command_buffer: final(command_buffer).handle },
            ),
    {
        command_buffer.state = CommandBufferState::Executable;
        self.trace.push(Call::CommandBufferEnd { command_buffer: command_buffer.handle });
        proof {
            lemma_trace_view_push(
                old(self).trace@,
                Call::CommandBufferEnd { command_buffer: command_buffer.handle },
            );
        }
    }

    /// Submits one executable command buffer to a queue. The fence must be
    /// unsignaled with nothing pending on it; the device signals it when the
    /// submitted work completes, so the fence leaves in the pending state.
    pub fn queue_submit(
        &mut self,
        queue: u64,
        command_buffer: &CommandBuffer,
        fence: &mut Fence,
        wait_semaphores: &Vec<u64>,
        wait_stage_masks: &Vec<u32>,
        signal_semaphores: &Vec<u64>,
    )
        requires
            old(self).wf(),
            old(self).is_live(old(fence).handle),
            command_buffer.state == CommandBufferState::Executable,
            old(fence).status == FenceStatus::Unsignaled,
            wait_semaphores@.len() == wait_stage_masks@.len(),
        ensures
            final(self).wf(),
            final(fence).handle == old(fence).handle,
            final(fence).status == FenceStatus::Pending,
            final(self).live@ == old(self).live@,
            final(self).next_handle == old(self).next_handle,
            final(self).acquire_cursor == old(self).acquire_cursor,
            final(self).calls() == old(self).calls().push(
                CallView::Submit {
                    queue,
                    command_buffer: command_buffer.handle,
                    fence: final(fence).handle,
                    wait_semaphores: wait_semaphores@,
                    wait_stage_masks: wait_stage_masks@,
                    signal_semaphores: signal_semaphores@,
                },
            ),
    {
        fence.status = FenceStatus::Pending;
        let entry = Call::Submit {
            queue,
            command_buffer: command_buffer.handle,
            fence: fence.handle,
            wait_semaphores: copy_values(wait_semaphores),
            wait_stage_masks: copy_values(wait_stage_masks),
            signal_semaphores: copy_values(signal_semaphores),
        };
        proof {
            lemma_trace_view_push(old(self).trace@, entry);
        }
        self.trace.push(entry);
    }

    /// Acquires the next presentable image: the stub cycles through the
    /// image indices round-robin. The given semaphore is signaled once the
    /// image is ready for rendering.
    pub fn acquire_next_image(
        &mut self,
        swapchain: u64,
        image_count: u32,
        signal_semaphore: u64,
    ) -> (image_index: u32)
        requires
            old(self).wf(),
            old(self).is_live(swapchain),
            image_count > 0,
        ensures
            final(self).wf(),
            image_index == old(self).acquire_cursor % image_count,
            image_index < image_count,
            final(self).acquire_cursor == ((image_index + 1) as u32) % image_count,
            final(self).live@ == old(self).live@,
            final(self).next_handle == old(self).next_handle,
            final(self).calls() == old(self).calls().push(
                CallView::AcquireImage { swapchain, signal_semaphore, image_index },
            ),
    {
        let image_index = self.acquire_cursor % image_count;
        self.acquire_cursor = (image_index + 1) % image_count;
        self.trace.push(Call::AcquireImage { swapchain, signal_semaphore, image_index });
        proof {
            lemma_trace_view_push(
                old(self).trace@,
                Call::AcquireImage { swapchain, signal_semaphore, image_index },
            );
        }
        image_index
    }

    /// Presents an acquired image on the queue, waiting on the given
    /// semaphore.
    pub fn queue_present(
        &mut self,
        queue: u64,
        swapchain: u64,
        wait_semaphore: u64,
        image_index: u32,
    )
        requires
            old(self).wf(),
            old(self).is_live(swapchain),
        ensures
            final(self).wf(),
            final(self).live@ == old(self).live@,
            final(self).next_handle == old(self).next_handle,
            final(self).acquire_cursor == old(self).acquire_cursor,
            final(self).calls() == old(self).calls().push(
                CallView::Present { queue, swapchain, wait_semaphore, image_index },
            ),
    {
        self.trace.push(Call::Present { queue, swapchain, wait_semaphore, image_index });
        proof {
            lemma_trace_view_push(
                old(self).trace@,
                Call::Present { queue, swapchain, wait_semaphore, image_index },
            );
        }
    }

    /// Blocks until the device has finished all outstanding work.
    pub fn wait_idle(&mut self)
        requires
            old(self).wf(),
        ensures
            final(self).wf(),
            final(self).live@ == old(self).live@,
            final(self).next_handle == old(self).next_handle,
            final(self).acquire_cursor == old(self).acquire_cursor,
            final(self).calls() == old(self).calls().push(CallView::WaitIdle),
    {
        self.trace.push(Call::WaitIdle);
        proof {
            lemma_trace_view_push(old(self).trace@, Call::WaitIdle);
        }
    }
}

/// The position of a live handle in the table.
fn index_of_handle(v: &Vec<u64>, handle: u64) -> (i: usize)
    requires
        v@.contains(handle),
    ensures
        i < v@.len(),
        v@[i as int] == handle,
{
    let mut i: usize = 0;
    while i < v.len()
        invariant
            i <= v@.len(),
            v@.contains(handle),
            forall|j: int| 0 <= j < i ==> v@[j] != handle,
        decreases v@.len() - i,
    {
        if v[i] == handle {
            return i;
        }
        i = i + 1;
    }
    proof {
        let j = choose|j: int| 0 <= j < v@.len() && v@[j] == handle;
        assert(false);
    }
    0
}

/// Removing one index from a duplicate-free handle sequence keeps it
/// duplicate-free and removes exactly that handle.
proof fn lemma_remove_keeps_distinct(s: Seq<u64>, i: int)
    requires
        0 <= i < s.len(),
        distinct_handles(s),
    ensures
        distinct_handles(s.remove(i)),
        forall|h: u64| s.remove(i).contains(h) <==> (s.contains(h) && h != s[i]),
{
    let r = s.remove(i);
    assert forall|h: u64| r.contains(h) implies (s.contains(h) && h != s[i]) by {
        let k = choose|k: int| 0 <= k < r.len() && r[k] == h;
        if k < i {
            assert(s[k] == h);
        } else {
            assert(s[k + 1] == h);
        }
    };
    assert forall|h: u64| s.contains(h) && h != s[i] implies r.contains(h) by {
        let k = choose|k: int| 0 <= k < s.len() && s[k] == h;
        if k < i {
            assert(r[k] == h);
        } else {
            assert(k > i);
            assert(r[k - 1] == h);
        }
    };
}

/// A fresh vector with the same contents.
fn copy_values<T: Copy>(v: &Vec<T>) -> (r: Vec<T>)
    ensures
        r@ == v@,
{
    let mut r: Vec<T> = Vec::new();
    let mut i: usize = 0;
    while i < v.len()
        invariant
            i <= v@.len(),
            r@ == v@.subrange(0, i as int),
        decreases v@.len() - i,
    {
        r.push(v[i]);
        proof {
            assert(r@ =~= v@.subrange(0, i + 1 as int));
        }
        i = i + 1;
    }
    proof {
        assert(r@ =~= v@);
    }
    r
}

} // verus!
