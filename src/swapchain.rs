//! Swapchain negotiation: image count, present mode, resolution, transform
//! and surface format, from what the surface reports.

use vstd::prelude::*;

verus! {

/// Surface transform bit: no transform.
pub const TRANSFORM_IDENTITY: u32 = 0x1;

/// The width that a surface reports when its size follows the swapchain.
pub const UNDEFINED_EXTENT_WIDTH: u32 = 0xFFFF_FFFF;

/// A width and a height in pixels.
#[derive(Clone, Copy, Debug, PartialEq, Eq, Structural)]
pub struct Extent2D {
    pub width: u32,
    pub height: u32,
}

/// How presented images reach the display.
#[derive(Clone, Copy, Debug, PartialEq, Eq, Structural)]
pub enum PresentMode {
    Immediate,
    /// Low latency without tearing: a new image replaces the queued one.
    Mailbox,
    /// First in, first out; every surface supports it.
    Fifo,
    FifoRelaxed,
    /// A mode that this library does not choose, by its raw value.
    Other(i32),
}

/// A pixel format and colour space pair, by raw value.
#[derive(Clone, Copy, Debug, PartialEq, Eq, Structural)]
pub struct SurfaceFormat {
    pub format: i32,
    pub color_space: i32,
}

/// What the surface reports about the swapchains it accepts.
#[derive(Clone, Copy, Debug, PartialEq, Eq)]
pub struct SurfaceCapabilities {
    pub min_image_count: u32,
    /// Zero when there is no upper bound.
    pub max_image_count: u32,
    pub current_extent: Extent2D,
    pub supported_transforms: u32,
    pub current_transform: u32,
}

/// The swapchain settings chosen for a surface.
#[derive(Clone, Copy, Debug, PartialEq, Eq)]
pub struct SwapchainConfig {
    pub image_count: u32,
    pub present_mode: PresentMode,
    pub resolution: Extent2D,
    pub pre_transform: u32,
    pub surface_format: SurfaceFormat,
}

/// Why no swapchain configuration could be chosen.
#[derive(Clone, Copy, Debug, PartialEq, Eq, Structural)]
pub enum SwapchainError {
    /// The surface lists no format.
    NoSurfaceFormat,
    /// One image more than the minimum does not fit a `u32`, and the surface
    /// sets no maximum.
    ImageCountOverflow,
}

/// One image more than the minimum, capped at the maximum when there is one.
pub open spec fn image_count_for(min_image_count: u32, max_image_count: u32) -> int {
    if max_image_count > 0 && min_image_count + 1 > max_image_count {
        max_image_count as int
    } else {
        min_image_count + 1
    }
}

/// Asks for one image more than the surface's minimum, capped at its maximum
/// (zero meaning unbounded).
pub fn desired_image_count(min_image_count: u32, max_image_count: u32) -> (r: u32)
    requires
        image_count_for(min_image_count, max_image_count) <= u32::MAX,
    ensures
        r == image_count_for(min_image_count, max_image_count),
{
    if max_image_count > 0 && min_image_count as u64 + 1 > max_image_count as u64 {
        max_image_count
    } else {
        min_image_count + 1
    }
}

/// The low-latency mode when the surface offers it, else first in, first out.
pub open spec fn present_mode_for(modes: Seq<PresentMode>) -> PresentMode {
    if modes.contains(PresentMode::Mailbox) {
        PresentMode::Mailbox
    } else {
        PresentMode::Fifo
    }
}

/// Chooses the low-latency mode if the surface supports it, and otherwise the
/// first-in-first-out mode that every surface supports.
pub fn choose_present_mode(modes: &Vec<PresentMode>) -> (r: PresentMode)
    ensures
        r == present_mode_for(modes@),
        modes@.contains(PresentMode::Mailbox) ==> r == PresentMode::Mailbox,
        !modes@.contains(PresentMode::Mailbox) ==> r == PresentMode::Fifo,
{
    let mut i: usize = 0;
    while i < modes.len()
        invariant
            i <= modes@.len(),
            forall|j: int| 0 <= j < i ==> #[trigger] modes@[j] != PresentMode::Mailbox,
        decreases modes.len() - i,
    {
        if modes[i] == PresentMode::Mailbox {
            assert(modes@[i as int] == PresentMode::Mailbox);
            return PresentMode::Mailbox;
        }
        i = i + 1;
    }
    PresentMode::Fifo
}

/// The surface's extent, unless it reports the undefined width; then the
/// window's size.
pub open spec fn resolution_for(current: Extent2D, window_width: u32, window_height: u32) -> Extent2D {
    if current.width == UNDEFINED_EXTENT_WIDTH {
        Extent2D { width: window_width, height: window_height }
    } else {
        current
    }
}

/// Uses the surface's current extent, or the requested window size when the
/// surface leaves the extent to the swapchain.
pub fn choose_resolution(current: Extent2D, window_width: u32, window_height: u32) -> (r: Extent2D)
    ensures
        r == resolution_for(current, window_width, window_height),
{
    if current.width == UNDEFINED_EXTENT_WIDTH {
        Extent2D { width: window_width, height: window_height }
    } else {
        current
    }
}

/// The identity transform when supported, else the surface's current one.
pub open spec fn pre_transform_for(supported: u32, current: u32) -> u32 {
    if supported & TRANSFORM_IDENTITY == TRANSFORM_IDENTITY {
        TRANSFORM_IDENTITY
    } else {
        current
    }
}

/// Prefers the identity transform, falling back to the current transform.
pub fn choose_pre_transform(supported: u32, current: u32) -> (r: u32)
    ensures
        r == pre_transform_for(supported, current),
{
    if supported & TRANSFORM_IDENTITY == TRANSFORM_IDENTITY {
        TRANSFORM_IDENTITY
    } else {
        current
    }
}

impl SwapchainConfig {
    /// Chooses the swapchain settings: the first listed surface format, the
    /// negotiated image count, present mode, resolution and transform.
    pub fn new(
        caps: &SurfaceCapabilities,
        formats: &Vec<SurfaceFormat>,
        present_modes: &Vec<PresentMode>,
        window_width: u32,
        window_height: u32,
    ) -> (r: Result<SwapchainConfig, SwapchainError>)
        ensures
            match r {
                Ok(c) => {
                    &&& formats@.len() > 0
                    &&& c.surface_format == formats@[0]
                    &&& c.image_count == image_count_for(caps.min_image_count, caps.max_image_count)
                    &&& c.present_mode == present_mode_for(present_modes@)
                    &&& (present_modes@.contains(PresentMode::Mailbox) ==> c.present_mode
                        == PresentMode::Mailbox)
                    &&& (!present_modes@.contains(PresentMode::Mailbox) ==> c.present_mode
                        == PresentMode::Fifo)
                    &&& c.resolution == resolution_for(caps.current_extent, window_width, window_height)
                    &&& c.pre_transform == pre_transform_for(
                        caps.supported_transforms,
                        caps.current_transform,
                    )
                },
                Err(e) => {
                    ||| e == SwapchainError::NoSurfaceFormat && formats@.len() == 0
                    ||| e == SwapchainError::ImageCountOverflow && formats@.len() > 0
                        && image_count_for(caps.min_image_count, caps.max_image_count) > u32::MAX
                },
            },
    {
        if formats.len() == 0 {
            return Err(SwapchainError::NoSurfaceFormat);
        }
        if caps.min_image_count == u32::MAX && caps.max_image_count == 0 {
            return Err(SwapchainError::ImageCountOverflow);
        }
        Ok(SwapchainConfig {
            image_count: desired_image_count(caps.min_image_count, caps.max_image_count),
            present_mode: choose_present_mode(present_modes),
            resolution: choose_resolution(caps.current_extent, window_width, window_height),
            pre_transform: choose_pre_transform(caps.supported_transforms, caps.current_transform),
            surface_format: formats[0],
        })
    }
}

} // verus!
