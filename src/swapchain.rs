use vstd::prelude::*;

use crate::constant::{
    COLOR_SPACE_SRGB_NONLINEAR, FORMAT_B8G8R8A8_SRGB, PRESENT_MODE_FIFO, PRESENT_MODE_MAILBOX,
};
use crate::queue::QueueFamilyIndices;

verus! {

/// A width and height in pixels.
#[derive(Clone, Copy, Debug, PartialEq, Eq, Structural)]
pub struct Extent2D {
    pub width: u32,
    pub height: u32,
}

/// A pixel format together with the color space it is presented in.
#[derive(Clone, Copy, Debug, PartialEq, Eq, Structural)]
pub struct SurfaceFormat {
    pub format: i32,
    pub color_space: i32,
}

/// What a surface reports about the swapchains it accepts.
#[derive(Clone, Copy, Debug, PartialEq, Eq, Structural)]
pub struct SurfaceCapabilities {
    pub min_image_count: u32,
    /// Zero means that the image count has no upper bound.
    pub max_image_count: u32,
    pub current_extent: Extent2D,
    pub min_image_extent: Extent2D,
    pub max_image_extent: Extent2D,
    pub current_transform: u32,
}

/// How the swapchain images are shared between queue families.
#[derive(Clone, Copy, Debug, PartialEq, Eq, Structural)]
pub enum SharingMode {
    /// One family owns an image at a time; no family indices are listed.
    Exclusive,
    /// Images are used by several families without ownership transfers.
    Concurrent,
}

/// The sharing mode of the swapchain images and the families it lists.
#[derive(Debug)]
pub struct ImageSharing {
    pub mode: SharingMode,
    pub queue_family_indices: Vec<u32>,
}

/// Everything that a new swapchain is created with, once negotiated with the surface.
#[derive(Debug)]
pub struct SwapchainConfig {
    pub image_count: u32,
    pub format: SurfaceFormat,
    pub extent: Extent2D,
    pub present_mode: i32,
    pub sharing: ImageSharing,
    pub pre_transform: u32,
}

/// Why no swapchain can be created on a surface.
#[derive(Clone, Copy, Debug, PartialEq, Eq, Structural)]
pub enum SwapchainError {
    /// The surface reports no format.
    NoSurfaceFormats,
    /// The surface reports no present mode.
    NoPresentModes,
    /// The surface reports a minimum image extent above its maximum.
    InvalidExtentRange,
}

/// The surface's capabilities, formats and present modes, as queried for one device.
#[derive(Debug)]
pub struct SwapChainSupportDetails {
    pub capabilities: SurfaceCapabilities,
    pub formats: Vec<SurfaceFormat>,
    pub present_modes: Vec<i32>,
}

/// The format that selection prefers: 8-bit BGRA in the sRGB nonlinear color space.
pub open spec fn preferred_format() -> SurfaceFormat {
    SurfaceFormat { format: FORMAT_B8G8R8A8_SRGB, color_space: COLOR_SPACE_SRGB_NONLINEAR }
}

/// The preferred format when the surface offers it, else the first one offered.
pub open spec fn chosen_format(formats: Seq<SurfaceFormat>) -> SurfaceFormat {
    if formats.contains(preferred_format()) {
        preferred_format()
    } else {
        formats[0]
    }
}

/// Mailbox when the surface offers it, else FIFO, which every surface supports.
pub open spec fn chosen_present_mode(modes: Seq<i32>) -> i32 {
    if modes.contains(PRESENT_MODE_MAILBOX) {
        PRESENT_MODE_MAILBOX
    } else {
        PRESENT_MODE_FIFO
    }
}

/// `x` brought into `[lo, hi]`.
pub open spec fn clamp_spec(x: u32, lo: u32, hi: u32) -> u32 {
    if x < lo {
        lo
    } else if x > hi {
        hi
    } else {
        x
    }
}

/// The minimum extent does not exceed the maximum one in either dimension.
pub open spec fn extent_range_valid(caps: SurfaceCapabilities) -> bool {
    caps.min_image_extent.width <= caps.max_image_extent.width
        && caps.min_image_extent.height <= caps.max_image_extent.height
}

/// The desired extent clamped, dimension by dimension, into the surface's range.
pub open spec fn clamped_extent(caps: SurfaceCapabilities, desired: Extent2D) -> Extent2D {
    Extent2D {
        width: clamp_spec(desired.width, caps.min_image_extent.width, caps.max_image_extent.width),
        height: clamp_spec(
            desired.height,
            caps.min_image_extent.height,
            caps.max_image_extent.height,
        ),
    }
}

/// One image more than the minimum, capped at the maximum when there is one.
pub open spec fn image_count_for(caps: SurfaceCapabilities) -> u32 {
    let wanted: u32 = if caps.min_image_count < u32::MAX {
        (caps.min_image_count + 1) as u32
    } else {
        u32::MAX
    };
    if caps.max_image_count > 0 && wanted > caps.max_image_count {
        caps.max_image_count
    } else {
        wanted
    }
}

impl ImageSharing {
    /// Concurrent over both families when they differ, else exclusive with no list.
    pub open spec fn matches_families(&self, graphics: u32, present: u32) -> bool {
        if graphics != present {
            self.mode == SharingMode::Concurrent && self.queue_family_indices@ == seq![
                graphics,
                present,
            ]
        } else {
            self.mode == SharingMode::Exclusive && self.queue_family_indices@.len() == 0
        }
    }
}

/// Relies on num::clamp: for `min <= max` it returns `min` below the range,
/// `max` above it and `input` inside it.
#[verifier::external_body]
fn clamp_u32(input: u32, min: u32, max: u32) -> (r: u32)
    requires
        min <= max,
    ensures
        r == clamp_spec(input, min, max),
{
    num::clamp(input, min, max)
}

impl SwapChainSupportDetails {
    /// `c` is the configuration negotiated for these surface reports, the desired
    /// extent and the queue families.
    pub open spec fn config_matches(
        &self,
        desired: Extent2D,
        queue_families: QueueFamilyIndices,
        c: SwapchainConfig,
    ) -> bool {
        &&& c.image_count == image_count_for(self.capabilities)
        &&& c.format == chosen_format(self.formats@)
        &&& c.extent == clamped_extent(self.capabilities, desired)
        &&& c.present_mode == chosen_present_mode(self.present_modes@)
        &&& c.sharing.matches_families(
            queue_families.graphics_family->Some_0,
            queue_families.present_family->Some_0,
        )
        &&& c.pre_transform == self.capabilities.current_transform
    }

    /// Picks the preferred format if the surface offers it, else the first format offered.
    pub fn choose_format(available_formats: &Vec<SurfaceFormat>) -> (r: SurfaceFormat)
        requires
            available_formats@.len() > 0,
        ensures
            r == chosen_format(available_formats@),
            available_formats@.contains(r),
    {
        let preferred = SurfaceFormat {
            format: FORMAT_B8G8R8A8_SRGB,
            color_space: COLOR_SPACE_SRGB_NONLINEAR,
        };
        let mut i: usize = 0;
        while i < available_formats.len()
            invariant
                0 <= i <= available_formats@.len(),
                preferred == preferred_format(),
                forall|j: int| 0 <= j < i ==> available_formats@[j] != preferred_format(),
            decreases available_formats@.len() - i,
        {
            if available_formats[i] == preferred {
                return available_formats[i];
            }
            i = i + 1;
        }
        assert(!available_formats@.contains(preferred_format()));
        assert(available_formats@.contains(available_formats@[0]));
        available_formats[0]
    }

    /// Picks mailbox if the surface offers it, else FIFO.
    pub fn choose_present_mode(present_modes: &Vec<i32>) -> (r: i32)
        ensures
            r == chosen_present_mode(present_modes@),
    {
        let mut i: usize = 0;
        while i < present_modes.len()
            invariant
                0 <= i <= present_modes@.len(),
                forall|j: int| 0 <= j < i ==> present_modes@[j] != PRESENT_MODE_MAILBOX,
            decreases present_modes@.len() - i,
        {
            if present_modes[i] == PRESENT_MODE_MAILBOX {
                return PRESENT_MODE_MAILBOX;
            }
            i = i + 1;
        }
        PRESENT_MODE_FIFO
    }

    /// Clamps the desired extent into the surface's `[min_image_extent, max_image_extent]`.
    pub fn choose_extent(capabilities: &SurfaceCapabilities, desired: Extent2D) -> (r: Extent2D)
        requires
            extent_range_valid(*capabilities),
        ensures
            r == clamped_extent(*capabilities, desired),
    {
        Extent2D {
            width: clamp_u32(
                desired.width,
                capabilities.min_image_extent.width,
                capabilities.max_image_extent.width,
            ),
            height: clamp_u32(
                desired.height,
                capabilities.min_image_extent.height,
                capabilities.max_image_extent.height,
            ),
        }
    }

    /// Asks for one image more than the minimum, capped at the maximum when it is nonzero.
    pub fn choose_image_count(capabilities: &SurfaceCapabilities) -> (r: u32)
        ensures
            r == image_count_for(*capabilities),
            capabilities.max_image_count == 0 || capabilities.min_image_count
                <= capabilities.max_image_count ==> capabilities.min_image_count <= r,
            capabilities.max_image_count > 0 ==> r <= capabilities.max_image_count,
    {
        let mut count: u32 = if capabilities.min_image_count < u32::MAX {
            capabilities.min_image_count + 1
        } else {
            u32::MAX
        };
        if capabilities.max_image_count > 0 && count > capabilities.max_image_count {
            count = capabilities.max_image_count;
        }
        count
    }

    /// Shares the images concurrently when graphics and present families differ,
    /// exclusively otherwise.
    pub fn choose_sharing(graphics: u32, present: u32) -> (r: ImageSharing)
        ensures
            r.matches_families(graphics, present),
    {
        if graphics != present {
            ImageSharing { mode: SharingMode::Concurrent, queue_family_indices: vec![graphics, present] }
        } else {
            ImageSharing { mode: SharingMode::Exclusive, queue_family_indices: Vec::new() }
        }
    }

    /// Negotiates the parameters of a new swapchain for a window of the desired size.
    ///
    /// Fails when the surface offers no format or no present mode, or reports an
    /// extent range that is empty.
    pub fn create_swapchain(
        &self,
        desired: Extent2D,
        queue_families: &QueueFamilyIndices,
    ) -> (r: Result<SwapchainConfig, SwapchainError>)
        requires
            queue_families.is_completed_spec(),
        ensures
            r == Err::<SwapchainConfig, SwapchainError>(SwapchainError::NoSurfaceFormats)
                <==> self.formats@.len() == 0,
            r == Err::<SwapchainConfig, SwapchainError>(SwapchainError::NoPresentModes) <==> (
            self.formats@.len() > 0 && self.present_modes@.len() == 0),
            r == Err::<SwapchainConfig, SwapchainError>(SwapchainError::InvalidExtentRange) <==> (
            self.formats@.len() > 0 && self.present_modes@.len() > 0 && !extent_range_valid(
                self.capabilities,
            )),
            r is Ok <==> (self.formats@.len() > 0 && self.present_modes@.len() > 0
                && extent_range_valid(self.capabilities)),
            r matches Ok(c) ==> self.config_matches(desired, *queue_families, c),
    {
        if self.formats.len() == 0 {
            return Err(SwapchainError::NoSurfaceFormats);
        }
        if self.present_modes.len() == 0 {
            return Err(SwapchainError::NoPresentModes);
        }
        let caps = &self.capabilities;
        if caps.min_image_extent.width > caps.max_image_extent.width
            || caps.min_image_extent.height > caps.max_image_extent.height {
            return Err(SwapchainError::InvalidExtentRange);
        }
        let extent = Self::choose_extent(caps, desired);
        let format = Self::choose_format(&self.formats);
        let present_mode = Self::choose_present_mode(&self.present_modes);
        let image_count = Self::choose_image_count(caps);
        let graphics = match queue_families.graphics_family {
            Some(g) => g,
            None => 0,
        };
        let present = match queue_families.present_family {
            Some(p) => p,
            None => 0,
        };
        let sharing = Self::choose_sharing(graphics, present);
        Ok(
            SwapchainConfig {
                image_count,
                format,
                extent,
                present_mode,
                sharing,
                pre_transform: caps.current_transform,
            },
        )
    }
}

/// A surface of fixed size, whose minimum and maximum extents agree, gets exactly that
/// extent whatever size is asked for.
pub proof fn lemma_fixed_extent(caps: SurfaceCapabilities, desired: Extent2D)
    requires
        caps.min_image_extent == caps.max_image_extent,
    ensures
        clamped_extent(caps, desired) == caps.min_image_extent,
{
}

/// Negotiating twice with unchanged surface reports, desired extent and queue families
/// gives the same image count, format, extent, present mode, sharing and transform.
pub proof fn lemma_config_deterministic(
    support: SwapChainSupportDetails,
    desired: Extent2D,
    queue_families: QueueFamilyIndices,
    c1: SwapchainConfig,
    c2: SwapchainConfig,
)
    requires
        support.config_matches(desired, queue_families, c1),
        support.config_matches(desired, queue_families, c2),
    ensures
        c1.image_count == c2.image_count,
        c1.format == c2.format,
        c1.extent == c2.extent,
        c1.present_mode == c2.present_mode,
        c1.sharing.mode == c2.sharing.mode,
        c1.sharing.queue_family_indices@ == c2.sharing.queue_family_indices@,
        c1.pre_transform == c2.pre_transform,
        c1.extent == clamped_extent(support.capabilities, desired),
        c1.format == chosen_format(support.formats@),
{
}

/// The image count of a negotiated configuration lies between the surface's minimum and
/// its maximum, or is at least the minimum when the maximum is zero: one more than the
/// minimum, capped at a nonzero maximum.
pub proof fn lemma_config_image_count_in_range(
    support: SwapChainSupportDetails,
    desired: Extent2D,
    queue_families: QueueFamilyIndices,
    c: SwapchainConfig,
)
    requires
        support.config_matches(desired, queue_families, c),
        support.capabilities.max_image_count == 0 || support.capabilities.min_image_count
            <= support.capabilities.max_image_count,
    ensures
        support.capabilities.min_image_count <= c.image_count,
        support.capabilities.max_image_count > 0 ==> c.image_count
            <= support.capabilities.max_image_count,
        support.capabilities.min_image_count < u32::MAX ==> c.image_count == if support.capabilities.max_image_count > 0
            && support.capabilities.min_image_count + 1 > support.capabilities.max_image_count {
            support.capabilities.max_image_count as int
        } else {
            support.capabilities.min_image_count + 1
        },
{
}

/// The image count asked for lies between the surface's minimum and its maximum, or
/// is at least the minimum when the maximum is zero, for any surface whose maximum is
/// zero or not below its minimum.
pub proof fn lemma_image_count_in_range(caps: SurfaceCapabilities)
    requires
        caps.max_image_count == 0 || caps.min_image_count <= caps.max_image_count,
    ensures
        caps.min_image_count <= image_count_for(caps),
        caps.max_image_count > 0 ==> image_count_for(caps) <= caps.max_image_count,
{
}

} // verus!
