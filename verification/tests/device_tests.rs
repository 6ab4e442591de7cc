use render_core::device::PhysicalDeviceInfo;
use render_core::device::QueueFamilySupport;
use render_core::device::select_device_and_queue_family;

fn device(families: &[(bool, bool)]) -> PhysicalDeviceInfo {
    let mut queue_families = Vec::new();
    for &(supports_graphics, supports_present) in families {
        queue_families.push(QueueFamilySupport { supports_graphics, supports_present });
    }
    PhysicalDeviceInfo { queue_families }
}

#[test]
fn first_suitable_family_of_first_suitable_device_wins() {
    let devices = vec![
        device(&[(true, false), (false, true)]),
        device(&[(false, false), (true, true), (true, true)]),
    ];
    assert_eq!(select_device_and_queue_family(&devices), Some((1, 1)));
}

#[test]
fn graphics_or_present_alone_does_not_qualify() {
    let devices = vec![device(&[(true, false), (false, true)])];
    assert_eq!(select_device_and_queue_family(&devices), None);
}

#[test]
fn no_devices_means_no_selection() {
    let devices: Vec<PhysicalDeviceInfo> = Vec::new();
    assert_eq!(select_device_and_queue_family(&devices), None);
}

#[test]
fn earlier_device_wins_without_scoring() {
    // Both devices qualify; the first match wins, with no preference pass.
    let devices = vec![device(&[(true, true)]), device(&[(true, true), (true, true)])];
    assert_eq!(select_device_and_queue_family(&devices), Some((0, 0)));
}
