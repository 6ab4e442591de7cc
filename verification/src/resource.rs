//! GPU-backed buffer resources: one-shot allocation, host uploads, and
//! paired teardown.
//!
//! Creation always follows the fixed sequence — create the object, query its
//! requirements from the object, select a compatible memory type, allocate
//! memory sized to the requirement's reported size, bind at offset zero —
//! and the sequence is atomic here, so backing memory is bound exactly once,
//! after allocation and before any GPU access. There is no sub-allocation:
//! one allocation per resource, always at offset zero.

use vstd::prelude::*;
use crate::memory::MEMORY_PROPERTY_HOST_COHERENT;
use crate::memory::MEMORY_PROPERTY_HOST_VISIBLE;
use crate::memory::MemoryProperties;
use crate::memory::MemoryRequirements;
use crate::memory::find_memory_type_index;
use crate::memory::is_lowest_qualifying;
use crate::memory::qualifies_at;
use crate::stub::CallView;
use crate::stub::ResourceKind;
use crate::stub::StubDevice;

verus! {

/// Why a resource cannot be allocated. The one cause is fatal for the
/// resource being created: there is no fallback tier.
#[derive(Clone, Copy, PartialEq, Eq, Structural, Debug)]
pub enum AllocationError {
    /// No memory type is allowed by the requirement's bitmask and carries
    /// every demanded property flag.
    NoCompatibleMemoryType,
}

/// A buffer object with its separately allocated backing memory, bound at
/// offset zero.
#[derive(Clone, Copy, PartialEq, Eq, Structural, Debug)]
pub struct GpuBuffer {
    /// The buffer object.
    pub buffer: u64,
    /// The backing memory allocation.
    pub memory: u64,
    /// The byte offset of the binding: always zero in this design.
    pub offset: u64,
    /// Bytes allocated: the requirement's reported size, which may exceed
    /// the requested logical size due to alignment.
    pub size: u64,
    /// The index of the chosen memory type.
    pub memory_type_index: u32,
    /// The property flags of the chosen memory type.
    pub property_flags: u32,
}

impl GpuBuffer {
    /// The resource's memory can be mapped and needs no explicit flush.
    pub open spec fn host_mappable(self) -> bool {
        self.property_flags & (MEMORY_PROPERTY_HOST_VISIBLE | MEMORY_PROPERTY_HOST_COHERENT) == (
        MEMORY_PROPERTY_HOST_VISIBLE | MEMORY_PROPERTY_HOST_COHERENT)
    }

    /// Frees the resource: the backing memory first, then the buffer — the
    /// reverse of the creation order. Taking the resource by value makes a
    /// second teardown impossible.
    pub fn destroy(self, dev: &mut StubDevice)
        requires
            old(dev).wf(),
            old(dev).is_live(self.buffer),
            old(dev).is_live(self.memory),
            self.buffer != self.memory,
        ensures
            final(dev).wf(),
            final(dev).next_handle == old(dev).next_handle,
            final(dev).acquire_cursor == old(dev).acquire_cursor,
            final(dev).calls() == old(dev).calls() + seq![
                CallView::Destroy { kind: ResourceKind::Memory, handle: self.memory },
                CallView::Destroy { kind: ResourceKind::Buffer, handle: self.buffer },
            ],
            forall|h: u64|
                final(dev).is_live(h) <==> (old(dev).is_live(h) && h != self.buffer && h
                    != self.memory),
    {
        let ghost calls0 = dev.calls();
        dev.destroy(ResourceKind::Memory, self.memory);
        dev.destroy(ResourceKind::Buffer, self.buffer);
        proof {
            assert(dev.calls() =~= calls0 + seq![
                CallView::Destroy { kind: ResourceKind::Memory, handle: self.memory },
                CallView::Destroy { kind: ResourceKind::Buffer, handle: self.buffer },
            ]);
        }
    }
}

/// Allocates a GPU buffer in the fixed sequence: create the buffer object,
/// select the lowest memory type allowed by the requirement's bitmask whose
/// property flags include all of `flags`, allocate memory of the
/// requirement's reported size, and bind it at offset zero. Fails — creating
/// nothing — when no memory type qualifies; the caller must treat that as
/// fatal for the resource, with no fallback tier.
pub fn create_buffer_resource(
    dev: &mut StubDevice,
    memory_req: &MemoryRequirements,
    memory_prop: &MemoryProperties,
    flags: u32,
) -> (r: Result<GpuBuffer, AllocationError>)
    requires
        old(dev).wf(),
        memory_prop.wf(),
        old(dev).next_handle < u64::MAX - 1,
    ensures
        final(dev).wf(),
        final(dev).acquire_cursor == old(dev).acquire_cursor,
        match r {
            Ok(b) => {
                &&& is_lowest_qualifying(
                    memory_req.memory_type_bits,
                    *memory_prop,
                    flags,
                    Some(b.memory_type_index),
                )
                &&& b.property_flags == memory_prop.memory_types@[
                    b.memory_type_index as int
                ].property_flags
                &&& b.offset == 0
                &&& b.size == memory_req.size
                &&& b.buffer != b.memory
                &&& !old(dev).is_live(b.buffer)
                &&& !old(dev).is_live(b.memory)
                &&& final(dev).is_live(b.buffer)
                &&& final(dev).is_live(b.memory)
                &&& final(dev).live@ == old(dev).live@.push(b.buffer).push(b.memory)
                &&& final(dev).calls() == old(dev).calls() + seq![
                    CallView::Create { kind: ResourceKind::Buffer, handle: b.buffer },
                    CallView::Create { kind: ResourceKind::Memory, handle: b.memory },
                    CallView::BindBufferMemory { buffer: b.buffer, memory: b.memory, offset: 0 },
                ]
            },
            Err(e) => {
                &&& e == AllocationError::NoCompatibleMemoryType
                &&& final(dev).calls() == old(dev).calls()
                &&& final(dev).live@ == old(dev).live@
                &&& final(dev).next_handle == old(dev).next_handle
                &&& forall|j: int|
                    0 <= j < memory_prop.memory_types@.len() ==> !#[trigger] qualifies_at(
                        memory_req.memory_type_bits,
                        *memory_prop,
                        flags,
                        j,
                    )
            },
        },
{
    let ghost calls0 = dev.calls();
    let memory_type_index = match find_memory_type_index(memory_req, memory_prop, flags) {
        Some(index) => index,
        None => {
            return Err(AllocationError::NoCompatibleMemoryType);
        },
    };
    proof {
        assert(qualifies_at(
            memory_req.memory_type_bits,
            *memory_prop,
            flags,
            memory_type_index as int,
        ));
    }
    let property_flags = memory_prop.memory_types[memory_type_index as usize].property_flags;
    let buffer = dev.create(ResourceKind::Buffer);
    let memory = dev.create(ResourceKind::Memory);
    proof {
        assert(dev.live@[dev.live@.len() - 2] == buffer);
        assert(dev.live@[dev.live@.len() - 1] == memory);
    }
    dev.bind_buffer_memory(buffer, memory, 0);
    proof {
        assert(dev.calls() =~= calls0 + seq![
            CallView::Create { kind: ResourceKind::Buffer, handle: buffer },
            CallView::Create { kind: ResourceKind::Memory, handle: memory },
            CallView::BindBufferMemory { buffer, memory, offset: 0 },
        ]);
    }
    Ok(
        GpuBuffer {
            buffer,
            memory,
            offset: 0,
            size: memory_req.size,
            memory_type_index,
            property_flags,
        },
    )
}

/// Writes initial data into a host-mappable resource: map the backing
/// memory, raw-copy the bytes in on the host, unmap. Only a resource whose
/// memory type is host-visible and host-coherent supports this, and the
/// write must fit the allocation.
pub fn upload_bytes(dev: &mut StubDevice, resource: &GpuBuffer, byte_count: u64)
    requires
        old(dev).wf(),
        old(dev).is_live(resource.memory),
        resource.host_mappable(),
        byte_count <= resource.size,
    ensures
        final(dev).wf(),
        final(dev).live@ == old(dev).live@,
        final(dev).next_handle == old(dev).next_handle,
        final(dev).acquire_cursor == old(dev).acquire_cursor,
        final(dev).calls() == old(dev).calls() + seq![
            CallView::MapMemory { memory: resource.memory, offset: 0, size: byte_count },
            CallView::UnmapMemory { memory: resource.memory },
        ],
{
    let ghost calls0 = dev.calls();
    dev.map_memory(resource.memory, 0, byte_count);
    dev.unmap_memory(resource.memory);
    proof {
        assert(dev.calls() =~= calls0 + seq![
            CallView::MapMemory { memory: resource.memory, offset: 0, size: byte_count },
            CallView::UnmapMemory { memory: resource.memory },
        ]);
    }
}

} // verus!
