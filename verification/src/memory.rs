//! Memory-type selection: a pure query over the device's memory-heap
//! descriptor table.
//!
//! A resource reports, via its memory requirements, a bitmask of the memory
//! types that can back it; the caller additionally demands a set of property
//! flags. The selector returns the first (lowest-index) table entry that is
//! allowed by the bitmask and whose property flags are a superset of the
//! demanded ones — first match, never best match, and no fallback tier.

use vstd::prelude::*;

verus! {

/// Property flag bit: the memory lives on the GPU itself.
pub const MEMORY_PROPERTY_DEVICE_LOCAL: u32 = 0x1;

/// Property flag bit: the memory can be mapped into host address space.
pub const MEMORY_PROPERTY_HOST_VISIBLE: u32 = 0x2;

/// Property flag bit: host writes to the mapped memory need no explicit flush.
pub const MEMORY_PROPERTY_HOST_COHERENT: u32 = 0x4;

/// One entry of the device's memory-type table.
pub struct MemoryType {
    /// Property flag bits of this memory type.
    pub property_flags: u32,
}

/// The device-advertised memory-heap descriptors: an ordered table of memory
/// types. The platform caps the table at 32 entries, one per bit of a
/// resource's compatible-type bitmask.
pub struct MemoryProperties {
    /// The memory-type table; only these entries are ever scanned.
    pub memory_types: Vec<MemoryType>,
}

impl MemoryProperties {
    /// The table never exceeds the 32 bits of a compatible-type bitmask.
    pub open spec fn wf(self) -> bool {
        self.memory_types@.len() <= 32
    }
}

/// Requirements the device reports for a concrete resource, queried from the
/// resource object itself, never guessed.
pub struct MemoryRequirements {
    /// Bytes the backing allocation must have; may exceed the logical size.
    pub size: u64,
    /// Required alignment of the backing allocation, in bytes.
    pub alignment: u64,
    /// Bit `i` is set when memory type `i` can back the resource.
    pub memory_type_bits: u32,
}

/// Memory type `i` of the table can back the resource and carries every
/// demanded property flag.
pub open spec fn qualifies_at(
    memory_type_bits: u32,
    memory_prop: MemoryProperties,
    required_flags: u32,
    i: int,
) -> bool {
    &&& (1u32 << (i as u32)) & memory_type_bits != 0
    &&& memory_prop.memory_types@[i].property_flags & required_flags == required_flags
}

/// `r` is exactly the lowest qualifying index of the table, or `None` when no
/// index qualifies.
pub open spec fn is_lowest_qualifying(
    memory_type_bits: u32,
    memory_prop: MemoryProperties,
    required_flags: u32,
    r: Option<u32>,
) -> bool {
    match r {
        Some(i) => {
            &&& 0 <= i < memory_prop.memory_types@.len()
            &&& qualifies_at(memory_type_bits, memory_prop, required_flags, i as int)
            &&& forall|j: int|
                0 <= j < i ==> !#[trigger] qualifies_at(
                    memory_type_bits,
                    memory_prop,
                    required_flags,
                    j,
                )
        },
        None => forall|j: int|
            0 <= j < memory_prop.memory_types@.len() ==> !#[trigger] qualifies_at(
                memory_type_bits,
                memory_prop,
                required_flags,
                j,
            ),
    }
}

/// Scans the memory-type table in index order and returns the first index
/// allowed by `memory_req.memory_type_bits` whose property flags include all
/// of `flags`; `None` when no entry qualifies, which the caller must treat as
/// fatal for the resource being created.
pub fn find_memory_type_index(
    memory_req: &MemoryRequirements,
    memory_prop: &MemoryProperties,
    flags: u32,
) -> (r: Option<u32>)
    requires
        memory_prop.wf(),
    ensures
        is_lowest_qualifying(memory_req.memory_type_bits, *memory_prop, flags, r),
{
    let mut index: usize = 0;
    while index < memory_prop.memory_types.len()
        invariant
            memory_prop.wf(),
            index <= memory_prop.memory_types@.len(),
            forall|j: int|
                0 <= j < index ==> !#[trigger] qualifies_at(
                    memory_req.memory_type_bits,
                    *memory_prop,
                    flags,
                    j,
                ),
        decreases memory_prop.memory_types@.len() - index,
    {
        let allowed = (1u32 << (index as u32)) & memory_req.memory_type_bits != 0;
        let has_flags = memory_prop.memory_types[index].property_flags & flags == flags;
        if allowed && has_flags {
            return Some(index as u32);
        }
        index = index + 1;
    }
    None
}

/// Law: the selector's answer is a function of the table and the inputs
/// alone — any two results that both satisfy the selector's contract are the
/// same, so the result is deterministic and independent of any iteration
/// order beyond "lowest qualifying index".
pub proof fn lemma_lowest_qualifying_unique(
    memory_type_bits: u32,
    memory_prop: MemoryProperties,
    required_flags: u32,
    r1: Option<u32>,
    r2: Option<u32>,
)
    requires
        is_lowest_qualifying(memory_type_bits, memory_prop, required_flags, r1),
        is_lowest_qualifying(memory_type_bits, memory_prop, required_flags, r2),
    ensures
        r1 == r2,
{
    match (r1, r2) {
        (Some(i1), Some(i2)) => {
            if i1 < i2 {
                assert(qualifies_at(memory_type_bits, memory_prop, required_flags, i1 as int));
            } else if i2 < i1 {
                assert(qualifies_at(memory_type_bits, memory_prop, required_flags, i2 as int));
            }
        },
        (Some(i1), None) => {
            assert(qualifies_at(memory_type_bits, memory_prop, required_flags, i1 as int));
        },
        (None, Some(i2)) => {
            assert(qualifies_at(memory_type_bits, memory_prop, required_flags, i2 as int));
        },
        (None, None) => {},
    }
}

/// Memory-type choice for the depth attachment: demands the device-local
/// property and nothing else, and fails — never silently substitutes another
/// tier — when no table entry advertises device-local memory for the
/// requirement's bitmask.
pub fn select_depth_image_memory(
    memory_req: &MemoryRequirements,
    memory_prop: &MemoryProperties,
) -> (r: Option<u32>)
    requires
        memory_prop.wf(),
    ensures
        is_lowest_qualifying(
            memory_req.memory_type_bits,
            *memory_prop,
            MEMORY_PROPERTY_DEVICE_LOCAL,
            r,
        ),
        r is None <==> (forall|j: int|
            0 <= j < memory_prop.memory_types@.len() ==> !#[trigger] qualifies_at(
                memory_req.memory_type_bits,
                *memory_prop,
                MEMORY_PROPERTY_DEVICE_LOCAL,
                j,
            )),
{
    let r = find_memory_type_index(memory_req, memory_prop, MEMORY_PROPERTY_DEVICE_LOCAL);
    proof {
        if r is Some {
            let i = r->0;
            assert(qualifies_at(
                memory_req.memory_type_bits,
                *memory_prop,
                MEMORY_PROPERTY_DEVICE_LOCAL,
                i as int,
            ));
        }
    }
    r
}

} // verus!
