//! Swapchain configuration: the choice of format, present mode, extent and image count,
//! and the lifecycle of the chain of presentable images.
use vstd::prelude::*;

use crate::adapter::QueueFamilyIndices;
use crate::surface::{
    is_srgb, Extent2D, PresentMode, SurfaceCapabilities, SurfaceFormat, SwapChainSupportDetail,
    UNDEFINED_EXTENT,
};

verus! {

/// `x` moved into `[lo, hi]`.
pub open spec fn clamp_spec(x: int, lo: int, hi: int) -> int {
    if x < lo {
        lo
    } else if x > hi {
        hi
    } else {
        x
    }
}

/// Relies on num::clamp: the input when it lies in `[min, max]`, else the bound it
/// passes. It panics in debug builds when `min > max`.
#[verifier::external_body]
fn clamp_u32(input: u32, min: u32, max: u32) -> (r: u32)
    requires
        min <= max,
    ensures
        r as int == clamp_spec(input as int, min as int, max as int),
{
    num::clamp(input, min, max)
}

/// Index of the first sRGB-encoded format in `fs` at or after `i`; `fs.len()` when none.
pub open spec fn first_srgb_from(fs: Seq<SurfaceFormat>, i: int) -> int
    decreases fs.len() - i,
{
    if i < 0 || i >= fs.len() {
        fs.len() as int
    } else if is_srgb(fs[i].format) {
        i
    } else {
        first_srgb_from(fs, i + 1)
    }
}

/// The first sRGB-encoded format of the list, else its first entry.
pub open spec fn selected_format(fs: Seq<SurfaceFormat>) -> SurfaceFormat {
    let k = first_srgb_from(fs, 0);
    if k < fs.len() {
        fs[k]
    } else {
        fs[0]
    }
}

/// Mailbox when it is offered, else FIFO, which every surface supports.
pub open spec fn selected_present_mode(ms: Seq<PresentMode>) -> PresentMode {
    if ms.contains(PresentMode::Mailbox) {
        PresentMode::Mailbox
    } else {
        PresentMode::Fifo
    }
}

/// The surface's current extent when it reports one, else the window size clamped into
/// the supported range.
pub open spec fn selected_extent(caps: SurfaceCapabilities, window: Extent2D) -> Extent2D {
    if caps.has_current_extent() {
        caps.current_extent
    } else {
        Extent2D {
            width: clamp_spec(
                window.width as int,
                caps.min_image_extent.width as int,
                caps.max_image_extent.width as int,
            ) as u32,
            height: clamp_spec(
                window.height as int,
                caps.min_image_extent.height as int,
                caps.max_image_extent.height as int,
            ) as u32,
        }
    }
}

/// One image more than the minimum, capped by the maximum when there is one (and by
/// the largest `u32`).
pub open spec fn selected_image_count(caps: SurfaceCapabilities) -> u32 {
    let want = caps.min_image_count + 1;
    if caps.max_image_count > 0 && want > caps.max_image_count {
        caps.max_image_count
    } else if want > u32::MAX {
        u32::MAX
    } else {
        want as u32
    }
}

proof fn lemma_first_srgb_bounds(fs: Seq<SurfaceFormat>, i: int)
    requires
        0 <= i <= fs.len(),
    ensures
        i <= first_srgb_from(fs, i) <= fs.len(),
        first_srgb_from(fs, i) < fs.len() ==> is_srgb(fs[first_srgb_from(fs, i)].format),
        forall|j: int| i <= j < first_srgb_from(fs, i) ==> !is_srgb(#[trigger] fs[j].format),
    decreases fs.len() - i,
{
    if i < fs.len() && !is_srgb(fs[i].format) {
        lemma_first_srgb_bounds(fs, i + 1);
    }
}

/// Picks the swapchain's format: the first sRGB-encoded one offered, else the first one.
pub fn choose_swapchain_format(available_formats: &Vec<SurfaceFormat>) -> (r: SurfaceFormat)
    requires
        available_formats@.len() > 0,
    ensures
        r == selected_format(available_formats@),
{
    let ghost fs = available_formats@;
    let mut i: usize = 0;
    while i < available_formats.len()
        invariant
            0 <= i <= fs.len(),
            fs == available_formats@,
            fs.len() > 0,
            first_srgb_from(fs, 0) == first_srgb_from(fs, i as int),
        decreases fs.len() - i,
    {
        if available_formats[i].format.is_srgb() {
            return available_formats[i];
        }
        i += 1;
    }
    available_formats[0]
}

/// Picks the present mode: mailbox when offered, else FIFO.
pub fn choose_swapchain_present_mode(available_present_modes: &Vec<PresentMode>) -> (r:
    PresentMode)
    ensures
        r == selected_present_mode(available_present_modes@),
{
    let mut i: usize = 0;
    while i < available_present_modes.len()
        invariant
            0 <= i <= available_present_modes@.len(),
            forall|j: int| 0 <= j < i ==> available_present_modes@[j] != PresentMode::Mailbox,
        decreases available_present_modes@.len() - i,
    {
        if available_present_modes[i] == PresentMode::Mailbox {
            assert(available_present_modes@[i as int] == PresentMode::Mailbox);
            return PresentMode::Mailbox;
        }
        i += 1;
    }
    assert(!available_present_modes@.contains(PresentMode::Mailbox));
    PresentMode::Fifo
}

/// Picks the image extent: the surface's current extent, or the window size clamped into
/// the supported range when the surface leaves it open.
pub fn choose_swapchain_extent(capabilities: &SurfaceCapabilities, window: Extent2D) -> (r:
    Extent2D)
    requires
        capabilities.bounds_ordered(),
    ensures
        r == selected_extent(*capabilities, window),
{
    if capabilities.current_extent.width != UNDEFINED_EXTENT {
        capabilities.current_extent
    } else {
        Extent2D {
            width: clamp_u32(
                window.width,
                capabilities.min_image_extent.width,
                capabilities.max_image_extent.width,
            ),
            height: clamp_u32(
                window.height,
                capabilities.min_image_extent.height,
                capabilities.max_image_extent.height,
            ),
        }
    }
}

/// Picks the number of images: one more than the minimum, capped by a non-zero maximum.
pub fn choose_image_count(capabilities: &SurfaceCapabilities) -> (r: u32)
    ensures
        r == selected_image_count(*capabilities),
{
    let want = capabilities.min_image_count.saturating_add(1);
    if capabilities.max_image_count > 0 && want > capabilities.max_image_count {
        capabilities.max_image_count
    } else {
        want
    }
}

/// The format chosen from a list with an sRGB-encoded entry is sRGB-encoded; from a list
/// without one, it is the list's first entry.
pub proof fn lemma_format_selection(fs: Seq<SurfaceFormat>)
    requires
        fs.len() > 0,
    ensures
        (exists|i: int| 0 <= i < fs.len() && is_srgb(#[trigger] fs[i].format)) ==> is_srgb(
            selected_format(fs).format,
        ),
        (forall|i: int| 0 <= i < fs.len() ==> !is_srgb(#[trigger] fs[i].format))
            ==> selected_format(fs) == fs[0],
{
    lemma_first_srgb_bounds(fs, 0);
}

/// Mailbox is chosen whenever it is offered; otherwise FIFO is chosen, whether or not the
/// list names it.
pub proof fn lemma_present_mode_selection(ms: Seq<PresentMode>)
    ensures
        ms.contains(PresentMode::Mailbox) ==> selected_present_mode(ms) == PresentMode::Mailbox,
        !ms.contains(PresentMode::Mailbox) ==> selected_present_mode(ms) == PresentMode::Fifo,
{
}

/// With no maximum the count is one more than the minimum; with a maximum below that it
/// is the maximum.
pub proof fn lemma_image_count(caps: SurfaceCapabilities)
    ensures
        caps.max_image_count == 0 && caps.min_image_count < u32::MAX ==> selected_image_count(
            caps,
        ) == caps.min_image_count + 1,
        caps.max_image_count > 0 && caps.min_image_count + 1 > caps.max_image_count
            ==> selected_image_count(caps) == caps.max_image_count,
        caps.max_image_count > 0 ==> selected_image_count(caps) <= caps.max_image_count,
{
}

/// How swapchain images are shared between the graphics and present queue families.
#[derive(Clone, Copy, Debug, PartialEq, Eq, Structural)]
pub enum SharingMode {
    /// One family owns the images: graphics and presentation share it.
    Exclusive,
    /// The images are used concurrently by two distinct families.
    Concurrent { graphics: u32, present: u32 },
}

/// Exclusive when graphics and presentation use the same family, else concurrent.
pub open spec fn selected_sharing(q: QueueFamilyIndices) -> SharingMode {
    if q.graphics_family == q.present_family {
        SharingMode::Exclusive
    } else {
        SharingMode::Concurrent {
            graphics: q.graphics_family.unwrap(),
            present: q.present_family.unwrap(),
        }
    }
}

/// Picks the sharing mode of the swapchain images.
pub fn choose_sharing_mode(indices: &QueueFamilyIndices) -> (r: SharingMode)
    requires
        indices.complete(),
    ensures
        r == selected_sharing(*indices),
{
    let g = indices.graphics_family.unwrap();
    let p = indices.present_family.unwrap();
    if g == p {
        SharingMode::Exclusive
    } else {
        SharingMode::Concurrent { graphics: g, present: p }
    }
}

/// The negotiated configuration a swapchain is built from. Its images are always used as
/// color attachments and composited opaquely.
#[derive(Clone, Copy, Debug, PartialEq, Eq, Structural)]
pub struct SwapchainConfig {
    pub surface_format: SurfaceFormat,
    pub present_mode: PresentMode,
    pub extent: Extent2D,
    pub image_count: u32,
    pub sharing_mode: SharingMode,
    pub pre_transform: u32,
}

/// The configuration derived from what the surface supports, the queue families and the
/// window size.
pub open spec fn derived_config(
    support: &SwapChainSupportDetail,
    q: QueueFamilyIndices,
    window: Extent2D,
) -> SwapchainConfig {
    SwapchainConfig {
        surface_format: selected_format(support.formats@),
        present_mode: selected_present_mode(support.present_modes@),
        extent: selected_extent(support.capabilities, window),
        image_count: selected_image_count(support.capabilities),
        sharing_mode: selected_sharing(q),
        pre_transform: support.capabilities.current_transform,
    }
}

/// Why a configuration could not be derived.
#[derive(Clone, Copy, Debug, PartialEq, Eq, Structural)]
pub enum ConfigureError {
    /// The surface reports no format.
    NoSurfaceFormat,
    /// The surface's minimum extent exceeds its maximum.
    InvalidCapabilities,
    /// The graphics or the present family is missing.
    IncompleteQueueFamilies,
}

/// The first reason, if any, why no configuration can be derived.
pub open spec fn configure_error(
    support: &SwapChainSupportDetail,
    q: QueueFamilyIndices,
) -> Option<ConfigureError> {
    if support.formats@.len() == 0 {
        Some(ConfigureError::NoSurfaceFormat)
    } else if !support.capabilities.bounds_ordered() {
        Some(ConfigureError::InvalidCapabilities)
    } else if !q.complete() {
        Some(ConfigureError::IncompleteQueueFamilies)
    } else {
        None
    }
}

/// Derives the swapchain configuration.
pub fn derive_config(
    support: &SwapChainSupportDetail,
    indices: &QueueFamilyIndices,
    window: Extent2D,
) -> (r: Result<SwapchainConfig, ConfigureError>)
    ensures
        configure_error(support, *indices) matches Some(e) ==> r == Err::<SwapchainConfig, _>(e),
        configure_error(support, *indices) is None ==> r == Ok::<_, ConfigureError>(
            derived_config(support, *indices, window),
        ),
{
    if support.formats.len() == 0 {
        return Err(ConfigureError::NoSurfaceFormat);
    }
    if !support.capabilities.bounds_are_ordered() {
        return Err(ConfigureError::InvalidCapabilities);
    }
    if !indices.is_complete() {
        return Err(ConfigureError::IncompleteQueueFamilies);
    }
    Ok(
        SwapchainConfig {
            surface_format: choose_swapchain_format(&support.formats),
            present_mode: choose_swapchain_present_mode(&support.present_modes),
            extent: choose_swapchain_extent(&support.capabilities, window),
            image_count: choose_image_count(&support.capabilities),
            sharing_mode: choose_sharing_mode(indices),
            pre_transform: support.capabilities.current_transform,
        },
    )
}

/// Lifecycle state of a swapchain.
#[derive(Clone, Copy, Debug, PartialEq, Eq, Structural)]
pub enum SwapChainState {
    /// No image set exists yet.
    Unconfigured,
    /// Images exist; acquire and present are permitted.
    Ready,
    /// The backend reported the images lost or out of date; a rebuild is needed.
    Invalid,
}

/// Errors the backend reports when acquiring or presenting an image.
#[derive(Clone, Copy, Debug, PartialEq, Eq, Structural)]
pub enum SurfaceError {
    Timeout,
    Outdated,
    Lost,
    OutOfMemory,
}

impl SurfaceError {
    /// Errors after which the swapchain must be rebuilt.
    pub open spec fn invalidates(self) -> bool {
        self == SurfaceError::Outdated || self == SurfaceError::Lost
    }
}

/// Abstract state of a swapchain.
pub struct SwapChainView {
    pub config: Option<SwapchainConfig>,
    pub valid: bool,
}

impl SwapChainView {
    pub open spec fn state(self) -> SwapChainState {
        match self.config {
            None => SwapChainState::Unconfigured,
            Some(_) => if self.valid {
                SwapChainState::Ready
            } else {
                SwapChainState::Invalid
            },
        }
    }
}

/// The state after `configure`: unchanged when the window is empty or no configuration
/// can be derived, else a fresh ready swapchain built from the derived configuration.
pub open spec fn configured_view(
    v: SwapChainView,
    support: &SwapChainSupportDetail,
    q: QueueFamilyIndices,
    window: Extent2D,
) -> SwapChainView {
    if window.is_empty() || configure_error(support, q).is_some() {
        v
    } else {
        SwapChainView { config: Some(derived_config(support, q, window)), valid: true }
    }
}

/// What `configure` returns: whether the images were rebuilt, or why they could not be.
pub open spec fn configure_result(
    support: &SwapChainSupportDetail,
    q: QueueFamilyIndices,
    window: Extent2D,
) -> Result<bool, ConfigureError> {
    if window.is_empty() {
        Ok(false)
    } else {
        match configure_error(support, q) {
            Some(e) => Err(e),
            None => Ok(true),
        }
    }
}

/// The chain of presentable images, held as the configuration it was built from.
///
/// A configuration is never edited in place: each rebuild replaces it whole.
pub struct SwapChain {
    config: Option<SwapchainConfig>,
    valid: bool,
}

impl View for SwapChain {
    type V = SwapChainView;

    closed spec fn view(&self) -> SwapChainView {
        SwapChainView { config: self.config, valid: self.valid }
    }
}

impl SwapChain {
    /// A swapchain with no images yet.
    pub fn new() -> (r: Self)
        ensures
            r@.config.is_none(),
            r@.state() == SwapChainState::Unconfigured,
    {
        SwapChain { config: None, valid: false }
    }

    /// (Re)builds the images for the window size `window`. An empty window leaves
    /// everything as it was; so does a surface or device from which no configuration can
    /// be derived, which is reported as an error. Returns whether the images were rebuilt.
    pub fn configure(
        &mut self,
        support: &SwapChainSupportDetail,
        indices: &QueueFamilyIndices,
        window: Extent2D,
    ) -> (r: Result<bool, ConfigureError>)
        ensures
            r == configure_result(support, *indices, window),
            final(self)@ == configured_view(old(self)@, support, *indices, window),
    {
        if window.width == 0 || window.height == 0 {
            return Ok(false);
        }
        match derive_config(support, indices, window) {
            Ok(config) => {
                self.config = Some(config);
                self.valid = true;
                Ok(true)
            },
            Err(e) => Err(e),
        }
    }

    /// Records an error the backend reported for this swapchain's images: a lost or
    /// out-of-date swapchain becomes invalid until it is configured again.
    pub fn record_error(&mut self, error: SurfaceError)
        ensures
            final(self)@.config == old(self)@.config,
            final(self)@.valid == (old(self)@.valid && !error.invalidates()),
    {
        if error == SurfaceError::Outdated || error == SurfaceError::Lost {
            self.valid = false;
        }
    }

    pub fn state(&self) -> (r: SwapChainState)
        ensures
            r == self@.state(),
    {
        match self.config {
            None => SwapChainState::Unconfigured,
            Some(_) => if self.valid {
                SwapChainState::Ready
            } else {
                SwapChainState::Invalid
            },
        }
    }

    /// The current configuration, if the swapchain was ever configured.
    pub fn config(&self) -> (r: Option<SwapchainConfig>)
        ensures
            r == self@.config,
    {
        self.config
    }
}

/// For a conforming surface and a non-empty window, the chosen extent lies within the
/// surface's extent bounds.
pub proof fn lemma_extent_within_bounds(caps: SurfaceCapabilities, window: Extent2D)
    requires
        caps.wf(),
        window.width > 0,
        window.height > 0,
    ensures
        selected_extent(caps, window).within(caps.min_image_extent, caps.max_image_extent),
{
}

/// A successful configuration for a non-empty window yields an extent within the
/// surface's bounds.
pub proof fn lemma_configured_extent_within_bounds(
    v: SwapChainView,
    support: &SwapChainSupportDetail,
    q: QueueFamilyIndices,
    window: Extent2D,
)
    requires
        support.capabilities.wf(),
        window.width > 0,
        window.height > 0,
        configure_result(support, q, window) == Ok::<bool, ConfigureError>(true),
    ensures
        configured_view(v, support, q, window).config matches Some(c) && c.extent.within(
            support.capabilities.min_image_extent,
            support.capabilities.max_image_extent,
        ),
{
    lemma_extent_within_bounds(support.capabilities, window);
}

/// Configuring for an empty window changes nothing and reports no rebuild.
pub proof fn lemma_empty_window_is_noop(
    v: SwapChainView,
    support: &SwapChainSupportDetail,
    q: QueueFamilyIndices,
    window: Extent2D,
)
    requires
        window.width == 0 || window.height == 0,
    ensures
        configured_view(v, support, q, window) == v,
        configure_result(support, q, window) == Ok::<bool, ConfigureError>(false),
{
}

/// Configuring a second time with the same surface report and window size gives the
/// same state, and so the same format, present mode and extent, as the first time.
pub proof fn lemma_configure_idempotent(
    v: SwapChainView,
    support: &SwapChainSupportDetail,
    q: QueueFamilyIndices,
    window: Extent2D,
)
    ensures
        configured_view(configured_view(v, support, q, window), support, q, window)
            == configured_view(v, support, q, window),
{
}

} // verus!
