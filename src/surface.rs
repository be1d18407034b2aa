//! Negotiation of the presentation surface: format, present mode, extent,
//! image count and image usage, from what the device reports. Formats,
//! colour spaces and present modes are the raw Vulkan enum values.
use vstd::prelude::*;

verus! {

/// `VK_FORMAT_R8G8B8A8_UNORM`.
pub const FORMAT_R8G8B8A8_UNORM: i32 = 37;

/// `VK_COLOR_SPACE_SRGB_NONLINEAR_KHR`.
pub const COLOR_SPACE_SRGB_NONLINEAR: i32 = 0;

/// `VK_PRESENT_MODE_MAILBOX_KHR`: low-latency triple buffering.
pub const PRESENT_MODE_MAILBOX: i32 = 1;

/// `VK_PRESENT_MODE_FIFO_KHR`: vsync, supported everywhere.
pub const PRESENT_MODE_FIFO: i32 = 2;

/// A width and a height in pixels.
#[derive(Clone, Copy, Debug, PartialEq, Eq, Structural)]
pub struct Extent {
    pub width: u32,
    pub height: u32,
}

/// A pixel format and the colour space it is presented in.
#[derive(Clone, Copy, Debug, PartialEq, Eq, Structural)]
pub struct SurfaceFormat {
    pub format: i32,
    pub color_space: i32,
}

/// What the device reports of the surface.
#[derive(Clone, Copy, Debug, PartialEq, Eq, Structural)]
pub struct SurfaceCapabilities {
    pub min_image_count: u32,
    /// 0 when the device sets no maximum.
    pub max_image_count: u32,
    /// A width of `u32::MAX` when the swapchain decides the extent.
    pub current_extent: Extent,
    pub min_image_extent: Extent,
    pub max_image_extent: Extent,
    /// Whether images may be written as storage images.
    pub storage_supported: bool,
}

/// How swapchain images may be used.
#[derive(Clone, Copy, Debug, PartialEq, Eq, Structural)]
pub struct ImageUsage {
    pub transfer_dst: bool,
    pub storage: bool,
}

/// The swapchain to build.
#[derive(Clone, Copy, Debug, PartialEq, Eq, Structural)]
pub struct SwapchainConfig {
    pub format: SurfaceFormat,
    pub present_mode: i32,
    pub extent: Extent,
    pub image_count: u32,
    pub usage: ImageUsage,
}

/// Errors of surface negotiation.
#[derive(Clone, Copy, Debug, PartialEq, Eq, Structural)]
pub enum SwapchainError {
    /// The device reports no surface format at all.
    NoSurfaceFormat,
}

/// The format asked for first: 8-bit RGBA, non-linear sRGB.
pub open spec fn preferred_format() -> SurfaceFormat {
    SurfaceFormat { format: FORMAT_R8G8B8A8_UNORM, color_space: COLOR_SPACE_SRGB_NONLINEAR }
}

/// The preferred format where reported, else the first reported one.
pub open spec fn chosen_format(formats: Seq<SurfaceFormat>) -> SurfaceFormat {
    if formats.contains(preferred_format()) {
        preferred_format()
    } else {
        formats[0]
    }
}

/// Mailbox where reported, else FIFO.
pub open spec fn chosen_present_mode(modes: Seq<i32>) -> i32 {
    if modes.contains(PRESENT_MODE_MAILBOX) {
        PRESENT_MODE_MAILBOX
    } else {
        PRESENT_MODE_FIFO
    }
}

/// `v` brought into `[lo, hi]`; `lo` wins when the bounds cross.
pub open spec fn clamp_to(v: u32, lo: u32, hi: u32) -> u32 {
    if v < lo {
        lo
    } else if v > hi {
        hi
    } else {
        v
    }
}

/// The device's fixed extent when it reports one, else the request clamped
/// to the device's bounds.
pub open spec fn chosen_extent(caps: SurfaceCapabilities, width: u32, height: u32) -> Extent {
    if caps.current_extent.width != u32::MAX {
        caps.current_extent
    } else {
        Extent {
            width: clamp_to(width, caps.min_image_extent.width, caps.max_image_extent.width),
            height: clamp_to(height, caps.min_image_extent.height, caps.max_image_extent.height),
        }
    }
}

/// One image more than the minimum, capped at the device's maximum when it
/// has one (and at `u32::MAX`).
pub open spec fn chosen_image_count(caps: SurfaceCapabilities) -> u32 {
    let want: u32 = if caps.min_image_count == u32::MAX {
        u32::MAX
    } else {
        (caps.min_image_count + 1) as u32
    };
    if caps.max_image_count > 0 && want > caps.max_image_count {
        caps.max_image_count
    } else {
        want
    }
}

/// Transfer destination always, storage writes where supported.
pub open spec fn chosen_usage(caps: SurfaceCapabilities) -> ImageUsage {
    ImageUsage { transfer_dst: true, storage: caps.storage_supported }
}

/// The whole negotiated swapchain, for a non-empty list of formats.
pub open spec fn chosen_config(
    caps: SurfaceCapabilities,
    formats: Seq<SurfaceFormat>,
    modes: Seq<i32>,
    width: u32,
    height: u32,
) -> SwapchainConfig {
    SwapchainConfig {
        format: chosen_format(formats),
        present_mode: chosen_present_mode(modes),
        extent: chosen_extent(caps, width, height),
        image_count: chosen_image_count(caps),
        usage: chosen_usage(caps),
    }
}

/// Picks the surface format; never fails while one is reported.
pub fn choose_format(formats: &Vec<SurfaceFormat>) -> (r: Option<SurfaceFormat>)
    ensures
        r is Some <==> formats@.len() > 0,
        r matches Some(f) ==> f == chosen_format(formats@),
{
    if formats.len() == 0 {
        return None;
    }
    let mut i: usize = 0;
    while i < formats.len()
        invariant
            i <= formats@.len(),
            forall|j: int| 0 <= j < i ==> formats@[j] != preferred_format(),
        decreases formats@.len() - i,
    {
        let f = formats[i];
        if f.format == FORMAT_R8G8B8A8_UNORM && f.color_space == COLOR_SPACE_SRGB_NONLINEAR {
            assert(formats@[i as int] == preferred_format());
            return Some(f);
        }
        i = i + 1;
    }
    Some(formats[0])
}

/// Picks the present mode.
pub fn choose_present_mode(modes: &Vec<i32>) -> (r: i32)
    ensures
        r == chosen_present_mode(modes@),
{
    let mut i: usize = 0;
    while i < modes.len()
        invariant
            i <= modes@.len(),
            forall|j: int| 0 <= j < i ==> modes@[j] != PRESENT_MODE_MAILBOX,
        decreases modes@.len() - i,
    {
        if modes[i] == PRESENT_MODE_MAILBOX {
            assert(modes@[i as int] == PRESENT_MODE_MAILBOX);
            return PRESENT_MODE_MAILBOX;
        }
        i = i + 1;
    }
    PRESENT_MODE_FIFO
}

fn clamp_u32(v: u32, lo: u32, hi: u32) -> (r: u32)
    ensures
        r == clamp_to(v, lo, hi),
{
    if v < lo {
        lo
    } else if v > hi {
        hi
    } else {
        v
    }
}

/// Picks the swapchain extent for a requested size.
pub fn choose_extent(caps: &SurfaceCapabilities, width: u32, height: u32) -> (r: Extent)
    ensures
        r == chosen_extent(*caps, width, height),
{
    if caps.current_extent.width != u32::MAX {
        caps.current_extent
    } else {
        Extent {
            width: clamp_u32(width, caps.min_image_extent.width, caps.max_image_extent.width),
            height: clamp_u32(height, caps.min_image_extent.height, caps.max_image_extent.height),
        }
    }
}

/// Picks the number of images to ask for.
pub fn choose_image_count(caps: &SurfaceCapabilities) -> (r: u32)
    ensures
        r == chosen_image_count(*caps),
{
    let want: u32 = if caps.min_image_count == u32::MAX {
        u32::MAX
    } else {
        caps.min_image_count + 1
    };
    if caps.max_image_count > 0 && want > caps.max_image_count {
        caps.max_image_count
    } else {
        want
    }
}

/// Negotiates the swapchain for a requested size.
pub fn negotiate(
    caps: &SurfaceCapabilities,
    formats: &Vec<SurfaceFormat>,
    modes: &Vec<i32>,
    width: u32,
    height: u32,
) -> (r: Result<SwapchainConfig, SwapchainError>)
    ensures
        r is Ok <==> formats@.len() > 0,
        r matches Ok(c) ==> c == chosen_config(*caps, formats@, modes@, width, height),
        r matches Err(e) ==> e == SwapchainError::NoSurfaceFormat,
{
    let format = match choose_format(formats) {
        Some(f) => f,
        None => {
            return Err(SwapchainError::NoSurfaceFormat);
        },
    };
    Ok(
        SwapchainConfig {
            format,
            present_mode: choose_present_mode(modes),
            extent: choose_extent(caps, width, height),
            image_count: choose_image_count(caps),
            usage: ImageUsage { transfer_dst: true, storage: caps.storage_supported },
        },
    )
}

/// Rebuilding the surface twice at one size, against the same device
/// report, gives the same image count and extent both times; and rebuilding
/// at the extent the surface settled on keeps that extent, where the
/// device's bounds do not cross.
pub proof fn lemma_rebuild_same_size_stable(
    caps: SurfaceCapabilities,
    formats: Seq<SurfaceFormat>,
    modes: Seq<i32>,
    width: u32,
    height: u32,
    first: SwapchainConfig,
    second: SwapchainConfig,
)
    requires
        formats.len() > 0,
        first == chosen_config(caps, formats, modes, width, height),
        second == chosen_config(caps, formats, modes, width, height),
    ensures
        first.image_count == second.image_count,
        first.extent == second.extent,
        caps.min_image_extent.width <= caps.max_image_extent.width
            && caps.min_image_extent.height <= caps.max_image_extent.height ==> chosen_config(
            caps,
            formats,
            modes,
            first.extent.width,
            first.extent.height,
        ).extent == first.extent,
{
}

} // verus!
