//! Physical-device and queue-family selection.
//!
//! The context needs one queue family that supports both graphics submission
//! and presentation to the surface. Candidates are scanned in the order the
//! platform reports them and the first match wins — no scoring or preference
//! among multiple suitable devices.

use vstd::prelude::*;

verus! {

/// What one queue family of a physical device supports, as reported by the
/// platform for the surface at hand.
#[derive(Clone, Copy, PartialEq, Eq, Structural, Debug)]
pub struct QueueFamilySupport {
    /// The family accepts graphics command submissions.
    pub supports_graphics: bool,
    /// The family can present to the created surface.
    pub supports_present: bool,
}

/// One enumerated physical device: its queue families, in platform order.
pub struct PhysicalDeviceInfo {
    /// The device's queue families, in the order the platform reports them.
    pub queue_families: Vec<QueueFamilySupport>,
}

/// A queue family is suitable when it supports graphics submission and
/// presentation simultaneously.
pub open spec fn family_qualifies(family: QueueFamilySupport) -> bool {
    family.supports_graphics && family.supports_present
}

/// The device exposes at least one suitable queue family.
pub open spec fn device_has_suitable_family(device: PhysicalDeviceInfo) -> bool {
    exists|j: int|
        0 <= j < device.queue_families@.len() && family_qualifies(
            #[trigger] device.queue_families@[j],
        )
}

/// The selection the context makes: the first suitable family of the first
/// physical device that has one.
pub open spec fn is_first_suitable_selection(
    devices: Seq<PhysicalDeviceInfo>,
    device_index: int,
    queue_family_index: int,
) -> bool {
    &&& 0 <= device_index < devices.len()
    &&& 0 <= queue_family_index < devices[device_index].queue_families@.len()
    &&& family_qualifies(devices[device_index].queue_families@[queue_family_index])
    &&& forall|j: int|
        0 <= j < queue_family_index ==> !family_qualifies(
            #[trigger] devices[device_index].queue_families@[j],
        )
    &&& forall|e: int|
        0 <= e < device_index ==> !device_has_suitable_family(#[trigger] devices[e])
}

/// Scans the enumerated devices in order and returns the first device that
/// exposes a suitable queue family, paired with the first suitable family
/// index on that device; `None` when no device qualifies, which makes the
/// whole context impossible.
pub fn select_device_and_queue_family(devices: &Vec<PhysicalDeviceInfo>) -> (r: Option<
    (usize, u32),
>)
    requires
        forall|i: int|
            0 <= i < devices@.len() ==> (#[trigger] devices@[i].queue_families@.len())
                <= u32::MAX,
    ensures
        match r {
            Some((device_index, queue_family_index)) => is_first_suitable_selection(
                devices@,
                device_index as int,
                queue_family_index as int,
            ),
            None => forall|e: int|
                0 <= e < devices@.len() ==> !device_has_suitable_family(#[trigger] devices@[e]),
        },
{
    let mut i: usize = 0;
    while i < devices.len()
        invariant
            i <= devices@.len(),
            forall|e: int| 0 <= e < i ==> !device_has_suitable_family(#[trigger] devices@[e]),
            forall|e: int|
                0 <= e < devices@.len() ==> (#[trigger] devices@[e].queue_families@.len())
                    <= u32::MAX,
        decreases devices@.len() - i,
    {
        let families = &devices[i].queue_families;
        let mut j: usize = 0;
        while j < families.len()
            invariant
                i < devices@.len(),
                j <= families@.len(),
                families@ == devices@[i as int].queue_families@,
                families@.len() <= u32::MAX,
                forall|k: int|
                    0 <= k < j ==> !family_qualifies(#[trigger] families@[k]),
                forall|e: int| 0 <= e < i ==> !device_has_suitable_family(#[trigger] devices@[e]),
            decreases families@.len() - j,
        {
            let family = families[j];
            if family.supports_graphics && family.supports_present {
                return Some((i, j as u32));
            }
            j = j + 1;
        }
        proof {
            assert(!device_has_suitable_family(devices@[i as int]));
        }
        i = i + 1;
    }
    None
}

} // verus!
