//! Swapchain configuration: pure computations over what the surface reports.
//!
//! Image count, resolution, pre-rotation transform and present mode are each
//! a small total function of the surface capabilities; the context queries
//! the platform once and decides everything here.

use vstd::prelude::*;

verus! {

/// Transform flag bit: present the image unrotated.
pub const SURFACE_TRANSFORM_IDENTITY: u32 = 0x1;

/// A pixel extent.
#[derive(Clone, Copy, PartialEq, Eq, Structural, Debug)]
pub struct Extent2d {
    /// Width in pixels.
    pub width: u32,
    /// Height in pixels.
    pub height: u32,
}

/// A surface format: a pixel format paired with a color space. The context
/// always takes the first format the surface reports, so the numeric values
/// are carried through without interpretation.
#[derive(Clone, Copy, PartialEq, Eq, Structural, Debug)]
pub struct SurfaceFormat {
    /// The pixel format.
    pub format: u32,
    /// The color space.
    pub color_space: u32,
}

/// What the surface reports about itself.
#[derive(Clone, Copy, PartialEq, Eq, Structural, Debug)]
pub struct SurfaceCapabilities {
    /// The fewest presentable images a swapchain on this surface may have.
    pub min_image_count: u32,
    /// The most presentable images allowed; zero means no cap.
    pub max_image_count: u32,
    /// The surface's current extent; a width of `u32::MAX` means the
    /// platform leaves the extent undefined.
    pub current_extent: Extent2d,
    /// Bitmask of the pre-rotation transforms the surface supports.
    pub supported_transforms: u32,
    /// The surface's current pre-rotation transform.
    pub current_transform: u32,
}

/// The present modes a surface can offer.
#[derive(Clone, Copy, PartialEq, Eq, Structural, Debug)]
pub enum PresentMode {
    /// Present immediately, possibly tearing.
    Immediate,
    /// Low-latency triple buffering: the preferred mode.
    Mailbox,
    /// Strict first-in-first-out: the universally supported fallback.
    Fifo,
    /// First-in-first-out that may tear after a missed vertical blank.
    FifoRelaxed,
}

/// One more image than the platform minimum, clamped down to a nonzero
/// platform maximum.
pub open spec fn spec_desired_image_count(capabilities: SurfaceCapabilities) -> int {
    if capabilities.max_image_count > 0 && capabilities.min_image_count + 1
        > capabilities.max_image_count {
        capabilities.max_image_count as int
    } else {
        capabilities.min_image_count + 1
    }
}

/// How many presentable images to ask the swapchain for: the platform
/// minimum plus one, clamped down to the platform maximum when that cap is
/// nonzero.
pub fn desired_image_count(capabilities: &SurfaceCapabilities) -> (count: u32)
    requires
        capabilities.min_image_count < u32::MAX,
    ensures
        count == spec_desired_image_count(*capabilities),
{
    let mut count = capabilities.min_image_count + 1;
    if capabilities.max_image_count > 0 && count > capabilities.max_image_count {
        count = capabilities.max_image_count;
    }
    count
}

/// Law: the chosen image count stays within the platform's bounds — at
/// least the minimum, at most a nonzero maximum, and never more than one
/// above the minimum. The platform guarantees that a nonzero maximum is not
/// below the minimum, and the bound below holds on exactly those inputs.
pub proof fn lemma_image_count_within_platform_bounds(capabilities: SurfaceCapabilities)
    requires
        capabilities.min_image_count < u32::MAX,
        capabilities.max_image_count == 0 || capabilities.max_image_count
            >= capabilities.min_image_count,
    ensures
        capabilities.min_image_count <= spec_desired_image_count(capabilities),
        capabilities.max_image_count > 0 ==> spec_desired_image_count(capabilities)
            <= capabilities.max_image_count,
        spec_desired_image_count(capabilities) <= capabilities.min_image_count + 1,
        spec_desired_image_count(capabilities) > 0,
{
}

/// The swapchain resolution the surface dictates.
pub open spec fn spec_surface_resolution(
    capabilities: SurfaceCapabilities,
    window_width: u32,
    window_height: u32,
) -> Extent2d {
    if capabilities.current_extent.width == u32::MAX {
        Extent2d { width: window_width, height: window_height }
    } else {
        capabilities.current_extent
    }
}

/// The swapchain resolution: the capability-reported current extent, or the
/// requested window size when the platform reports the extent as undefined.
pub fn surface_resolution(
    capabilities: &SurfaceCapabilities,
    window_width: u32,
    window_height: u32,
) -> (r: Extent2d)
    ensures
        r == spec_surface_resolution(*capabilities, window_width, window_height),
{
    if capabilities.current_extent.width == u32::MAX {
        Extent2d { width: window_width, height: window_height }
    } else {
        capabilities.current_extent
    }
}

/// The pre-rotation transform the context chooses.
pub open spec fn spec_pre_transform(capabilities: SurfaceCapabilities) -> u32 {
    if capabilities.supported_transforms & SURFACE_TRANSFORM_IDENTITY != 0 {
        SURFACE_TRANSFORM_IDENTITY
    } else {
        capabilities.current_transform
    }
}

/// The pre-rotation transform: identity when the surface supports it, else
/// whatever transform the surface currently applies.
pub fn choose_pre_transform(capabilities: &SurfaceCapabilities) -> (r: u32)
    ensures
        r == spec_pre_transform(*capabilities),
{
    if capabilities.supported_transforms & SURFACE_TRANSFORM_IDENTITY != 0 {
        SURFACE_TRANSFORM_IDENTITY
    } else {
        capabilities.current_transform
    }
}

/// The present mode: the low-latency triple-buffer mode when the surface
/// offers it, else the universally supported strict first-in-first-out
/// mode.
pub fn choose_present_mode(present_modes: &Vec<PresentMode>) -> (r: PresentMode)
    ensures
        present_modes@.contains(PresentMode::Mailbox) ==> r == PresentMode::Mailbox,
        !present_modes@.contains(PresentMode::Mailbox) ==> r == PresentMode::Fifo,
{
    let mut i: usize = 0;
    while i < present_modes.len()
        invariant
            i <= present_modes@.len(),
            forall|j: int| 0 <= j < i ==> present_modes@[j] != PresentMode::Mailbox,
        decreases present_modes@.len() - i,
    {
        if present_modes[i] == PresentMode::Mailbox {
            return PresentMode::Mailbox;
        }
        i = i + 1;
    }
    PresentMode::Fifo
}

} // verus!
