use render_core::memory::MemoryProperties;
use render_core::memory::MemoryRequirements;
use render_core::memory::MemoryType;
use render_core::memory::MEMORY_PROPERTY_DEVICE_LOCAL;
use render_core::memory::MEMORY_PROPERTY_HOST_COHERENT;
use render_core::memory::MEMORY_PROPERTY_HOST_VISIBLE;
use render_core::memory::find_memory_type_index;
use render_core::memory::select_depth_image_memory;

fn props(flags: &[u32]) -> MemoryProperties {
    let mut memory_types = Vec::new();
    for &property_flags in flags {
        memory_types.push(MemoryType { property_flags });
    }
    MemoryProperties { memory_types }
}

fn reqs(memory_type_bits: u32) -> MemoryRequirements {
    MemoryRequirements { size: 1024, alignment: 256, memory_type_bits }
}

#[test]
fn lowest_qualifying_index_wins() {
    // Indices 1 and 2 both qualify; the selector must return 1, the lowest.
    let p = props(&[0, MEMORY_PROPERTY_DEVICE_LOCAL, MEMORY_PROPERTY_DEVICE_LOCAL]);
    let r = find_memory_type_index(&reqs(0b110), &p, MEMORY_PROPERTY_DEVICE_LOCAL);
    assert_eq!(r, Some(1));
}

#[test]
fn type_bits_exclude_lower_indices() {
    // Index 1 has the flags but is excluded by the bitmask; index 2 wins.
    let p = props(&[0, MEMORY_PROPERTY_DEVICE_LOCAL, MEMORY_PROPERTY_DEVICE_LOCAL]);
    let r = find_memory_type_index(&reqs(0b100), &p, MEMORY_PROPERTY_DEVICE_LOCAL);
    assert_eq!(r, Some(2));
}

#[test]
fn flags_must_be_superset() {
    // Host-visible alone does not satisfy host-visible plus host-coherent.
    let p = props(&[MEMORY_PROPERTY_HOST_VISIBLE]);
    let wanted = MEMORY_PROPERTY_HOST_VISIBLE | MEMORY_PROPERTY_HOST_COHERENT;
    assert_eq!(find_memory_type_index(&reqs(0b1), &p, wanted), None);

    let p2 = props(&[MEMORY_PROPERTY_HOST_VISIBLE | MEMORY_PROPERTY_HOST_COHERENT
        | MEMORY_PROPERTY_DEVICE_LOCAL]);
    assert_eq!(find_memory_type_index(&reqs(0b1), &p2, wanted), Some(0));
}

#[test]
fn no_qualifying_type_is_none() {
    let p = props(&[MEMORY_PROPERTY_HOST_VISIBLE, MEMORY_PROPERTY_HOST_COHERENT]);
    assert_eq!(find_memory_type_index(&reqs(0b11), &p, MEMORY_PROPERTY_DEVICE_LOCAL), None);
}

#[test]
fn empty_table_is_none() {
    let p = props(&[]);
    assert_eq!(find_memory_type_index(&reqs(u32::MAX), &p, 0), None);
}

#[test]
fn zero_required_flags_takes_first_allowed() {
    let p = props(&[0, 0]);
    assert_eq!(find_memory_type_index(&reqs(0b10), &p, 0), Some(1));
}

#[test]
fn depth_selection_demands_device_local() {
    // A host-visible-only table must fail, never silently substitute.
    let p = props(&[MEMORY_PROPERTY_HOST_VISIBLE | MEMORY_PROPERTY_HOST_COHERENT]);
    assert_eq!(select_depth_image_memory(&reqs(0b1), &p), None);

    let p2 = props(&[MEMORY_PROPERTY_HOST_VISIBLE, MEMORY_PROPERTY_DEVICE_LOCAL]);
    assert_eq!(select_depth_image_memory(&reqs(0b11), &p2), Some(1));
}

#[test]
fn depth_selection_respects_requirement_bitmask() {
    // Device-local exists, but the requirement's bitmask excludes it.
    let p = props(&[MEMORY_PROPERTY_DEVICE_LOCAL, MEMORY_PROPERTY_HOST_VISIBLE]);
    assert_eq!(select_depth_image_memory(&reqs(0b10), &p), None);
}
