use render_core::swapchain::Extent2d;
use render_core::swapchain::PresentMode;
use render_core::swapchain::SurfaceCapabilities;
use render_core::swapchain::SURFACE_TRANSFORM_IDENTITY;
use render_core::swapchain::choose_present_mode;
use render_core::swapchain::choose_pre_transform;
use render_core::swapchain::desired_image_count;
use render_core::swapchain::surface_resolution;

fn caps(min_image_count: u32, max_image_count: u32) -> SurfaceCapabilities {
    SurfaceCapabilities {
        min_image_count,
        max_image_count,
        current_extent: Extent2d { width: 1024, height: 768 },
        supported_transforms: SURFACE_TRANSFORM_IDENTITY,
        current_transform: SURFACE_TRANSFORM_IDENTITY,
    }
}

#[test]
fn image_count_uncapped_is_min_plus_one() {
    // A zero maximum means no cap: minimum two resolves to three images.
    assert_eq!(desired_image_count(&caps(2, 0)), 3);
}

#[test]
fn image_count_clamped_to_maximum() {
    // A maximum of two clamps the desired three back down to two.
    assert_eq!(desired_image_count(&caps(2, 2)), 2);
}

#[test]
fn image_count_under_a_roomy_maximum() {
    assert_eq!(desired_image_count(&caps(2, 8)), 3);
}

#[test]
fn image_count_stays_within_bounds() {
    for min in 1..6u32 {
        for max in [0u32, 6, 7, 8] {
            let count = desired_image_count(&caps(min, max));
            assert!(count >= min);
            if max > 0 {
                assert!(count <= max);
            }
            assert!(count <= min + 1);
        }
    }
}

#[test]
fn resolution_takes_reported_extent() {
    let r = surface_resolution(&caps(2, 0), 800, 600);
    assert_eq!(r, Extent2d { width: 1024, height: 768 });
}

#[test]
fn resolution_falls_back_to_window_size() {
    // A current-extent width of u32::MAX means the platform reports no
    // extent; the requested window size is used instead.
    let mut c = caps(2, 0);
    c.current_extent = Extent2d { width: u32::MAX, height: u32::MAX };
    let r = surface_resolution(&c, 800, 600);
    assert_eq!(r, Extent2d { width: 800, height: 600 });
}

#[test]
fn pre_transform_prefers_identity() {
    let mut c = caps(2, 0);
    c.supported_transforms = SURFACE_TRANSFORM_IDENTITY | 0x4;
    c.current_transform = 0x4;
    assert_eq!(choose_pre_transform(&c), SURFACE_TRANSFORM_IDENTITY);
}

#[test]
fn pre_transform_falls_back_to_current() {
    let mut c = caps(2, 0);
    c.supported_transforms = 0x4;
    c.current_transform = 0x4;
    assert_eq!(choose_pre_transform(&c), 0x4);
}

#[test]
fn present_mode_prefers_mailbox() {
    let modes = vec![PresentMode::Immediate, PresentMode::Mailbox, PresentMode::Fifo];
    assert_eq!(choose_present_mode(&modes), PresentMode::Mailbox);
}

#[test]
fn present_mode_falls_back_to_fifo() {
    let modes = vec![PresentMode::Immediate, PresentMode::FifoRelaxed, PresentMode::Fifo];
    assert_eq!(choose_present_mode(&modes), PresentMode::Fifo);
    let none: Vec<PresentMode> = Vec::new();
    assert_eq!(choose_present_mode(&none), PresentMode::Fifo);
}
