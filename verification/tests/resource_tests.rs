use render_core::memory::MemoryProperties;
use render_core::memory::MemoryRequirements;
use render_core::memory::MemoryType;
use render_core::memory::MEMORY_PROPERTY_DEVICE_LOCAL;
use render_core::memory::MEMORY_PROPERTY_HOST_COHERENT;
use render_core::memory::MEMORY_PROPERTY_HOST_VISIBLE;
use render_core::resource::create_buffer_resource;
use render_core::resource::upload_bytes;
use render_core::resource::AllocationError;
use render_core::stub::Call;
use render_core::stub::ResourceKind;
use render_core::stub::StubDevice;

const HOST_FLAGS: u32 = MEMORY_PROPERTY_HOST_VISIBLE | MEMORY_PROPERTY_HOST_COHERENT;

fn table() -> MemoryProperties {
    MemoryProperties {
        memory_types: vec![
            MemoryType { property_flags: MEMORY_PROPERTY_DEVICE_LOCAL },
            MemoryType { property_flags: HOST_FLAGS },
        ],
    }
}

fn reqs(size: u64, memory_type_bits: u32) -> MemoryRequirements {
    MemoryRequirements { size, alignment: 64, memory_type_bits }
}

#[test]
fn allocation_follows_the_fixed_sequence() {
    let mut dev = StubDevice::new();
    let b = create_buffer_resource(&mut dev, &reqs(4096, 0b11), &table(), HOST_FLAGS)
        .expect("a host-mappable type exists");
    assert_eq!(b.memory_type_index, 1);
    assert_eq!(b.property_flags, HOST_FLAGS);
    assert_eq!(b.offset, 0);
    assert_eq!(b.size, 4096);

    assert_eq!(dev.trace.len(), 3);
    assert!(matches!(
        dev.trace[0],
        Call::Create { kind: ResourceKind::Buffer, handle } if handle == b.buffer
    ));
    assert!(matches!(
        dev.trace[1],
        Call::Create { kind: ResourceKind::Memory, handle } if handle == b.memory
    ));
    assert!(matches!(
        dev.trace[2],
        Call::BindBufferMemory { buffer, memory, offset: 0 }
            if buffer == b.buffer && memory == b.memory
    ));
}

#[test]
fn allocation_without_a_qualifying_type_creates_nothing() {
    let mut dev = StubDevice::new();
    // The bitmask only allows the device-local type, but host flags are
    // demanded: fatal, with no fallback tier.
    let r = create_buffer_resource(&mut dev, &reqs(4096, 0b01), &table(), HOST_FLAGS);
    assert_eq!(r, Err(AllocationError::NoCompatibleMemoryType));
    assert_eq!(dev.trace.len(), 0);
}

#[test]
fn upload_maps_and_unmaps_the_backing_memory() {
    let mut dev = StubDevice::new();
    let b = create_buffer_resource(&mut dev, &reqs(4096, 0b11), &table(), HOST_FLAGS)
        .expect("a host-mappable type exists");
    let before = dev.trace.len();
    upload_bytes(&mut dev, &b, 1536);
    let tail = &dev.trace[before..];
    assert_eq!(tail.len(), 2);
    assert!(matches!(
        tail[0],
        Call::MapMemory { memory, offset: 0, size: 1536 } if memory == b.memory
    ));
    assert!(matches!(tail[1], Call::UnmapMemory { memory } if memory == b.memory));
}

#[test]
fn teardown_frees_memory_then_buffer() {
    let mut dev = StubDevice::new();
    let b = create_buffer_resource(&mut dev, &reqs(4096, 0b11), &table(), HOST_FLAGS)
        .expect("a host-mappable type exists");
    let before = dev.trace.len();
    let buffer = b.buffer;
    let memory = b.memory;
    b.destroy(&mut dev);
    let tail = &dev.trace[before..];
    assert_eq!(tail.len(), 2);
    assert!(matches!(
        tail[0],
        Call::Destroy { kind: ResourceKind::Memory, handle } if handle == memory
    ));
    assert!(matches!(
        tail[1],
        Call::Destroy { kind: ResourceKind::Buffer, handle } if handle == buffer
    ));
}
