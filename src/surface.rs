//! Plain-value descriptions of what a presentation surface supports.
use vstd::prelude::*;

verus! {

/// Width reported as the current extent when the surface leaves the size to the swapchain.
pub const UNDEFINED_EXTENT: u32 = 0xFFFF_FFFF;

/// Dimensions of a two-dimensional image, in pixels.
#[derive(Clone, Copy, Debug, PartialEq, Eq, Structural)]
pub struct Extent2D {
    pub width: u32,
    pub height: u32,
}

impl Extent2D {
    pub open spec fn is_empty(self) -> bool {
        self.width == 0 || self.height == 0
    }

    pub open spec fn within(self, lo: Extent2D, hi: Extent2D) -> bool {
        &&& lo.width <= self.width <= hi.width
        &&& lo.height <= self.height <= hi.height
    }
}

/// Pixel format of presentable images.
///
/// The named variants are the formats that surfaces report in practice; any other format
/// is carried by its raw code in `Other` and is treated as linearly encoded.
#[derive(Clone, Copy, Debug, PartialEq, Eq, Structural)]
pub enum Format {
    Undefined,
    R8g8b8a8Unorm,
    R8g8b8a8Srgb,
    B8g8r8a8Unorm,
    B8g8r8a8Srgb,
    A8b8g8r8UnormPack32,
    A8b8g8r8SrgbPack32,
    A2b10g10r10UnormPack32,
    A2r10g10b10UnormPack32,
    Other(i32),
}

/// Color space in which presented images are interpreted.
#[derive(Clone, Copy, Debug, PartialEq, Eq, Structural)]
pub enum ColorSpace {
    SrgbNonlinear,
    Other(i32),
}

/// One format / color-space pair that a surface supports.
#[derive(Clone, Copy, Debug, PartialEq, Eq, Structural)]
pub struct SurfaceFormat {
    pub format: Format,
    pub color_space: ColorSpace,
}

/// Policy deciding when a presented image becomes visible.
#[derive(Clone, Copy, Debug, PartialEq, Eq, Structural)]
pub enum PresentMode {
    Immediate,
    Mailbox,
    Fifo,
    FifoRelaxed,
    Other(i32),
}

/// Whether a format stores its color channels sRGB-encoded.
pub open spec fn is_srgb(f: Format) -> bool {
    f == Format::R8g8b8a8Srgb || f == Format::B8g8r8a8Srgb || f == Format::A8b8g8r8SrgbPack32
}

impl Format {
    pub fn is_srgb(&self) -> (r: bool)
        ensures
            r == is_srgb(*self),
    {
        match self {
            Format::R8g8b8a8Srgb | Format::B8g8r8a8Srgb | Format::A8b8g8r8SrgbPack32 => true,
            _ => false,
        }
    }
}

/// Limits that a surface imposes on a swapchain built for it.
#[derive(Clone, Copy, Debug, PartialEq, Eq, Structural)]
pub struct SurfaceCapabilities {
    pub min_image_count: u32,
    /// Zero means that the number of images is unbounded.
    pub max_image_count: u32,
    /// `UNDEFINED_EXTENT` as width means that the swapchain decides the extent.
    pub current_extent: Extent2D,
    pub min_image_extent: Extent2D,
    pub max_image_extent: Extent2D,
    /// Raw transform bits that images are presented with.
    pub current_transform: u32,
}

impl SurfaceCapabilities {
    /// The extent bounds form a non-empty range in both dimensions.
    pub open spec fn bounds_ordered(self) -> bool {
        &&& self.min_image_extent.width <= self.max_image_extent.width
        &&& self.min_image_extent.height <= self.max_image_extent.height
    }

    /// The surface reports an extent of its own rather than the sentinel.
    pub open spec fn has_current_extent(self) -> bool {
        self.current_extent.width != UNDEFINED_EXTENT
    }

    /// What a conforming backend reports: ordered bounds, and a reported current extent
    /// that lies within them.
    pub open spec fn wf(self) -> bool {
        &&& self.bounds_ordered()
        &&& self.has_current_extent() ==> self.current_extent.within(
            self.min_image_extent,
            self.max_image_extent,
        )
    }

    pub fn bounds_are_ordered(&self) -> (r: bool)
        ensures
            r == self.bounds_ordered(),
    {
        self.min_image_extent.width <= self.max_image_extent.width
            && self.min_image_extent.height <= self.max_image_extent.height
    }
}

/// Everything a surface reports for one physical device.
pub struct SwapChainSupportDetail {
    pub capabilities: SurfaceCapabilities,
    pub formats: Vec<SurfaceFormat>,
    pub present_modes: Vec<PresentMode>,
}

impl SwapChainSupportDetail {
    /// The surface can be presented to at all: it reports a format and a present mode.
    pub open spec fn is_adequate(&self) -> bool {
        self.formats@.len() > 0 && self.present_modes@.len() > 0
    }

    pub fn adequate(&self) -> (r: bool)
        ensures
            r == self.is_adequate(),
    {
        self.formats.len() > 0 && self.present_modes.len() > 0
    }
}

} // verus!
