//! Swapchain configuration derived from surface capabilities.
//!
//! Before every frame the driver queries the surface's current
//! capabilities; the engine intersects them with the extent the window
//! asked for and produces the configuration to apply. The surface may
//! settle on a different extent than requested: it pins an explicit
//! current extent, or clamps the request into its supported range.

use crate::extent::{clamp_extent, clamped, clamped_extent, Extent2d};
use crate::format::FormatChoice;
use vstd::prelude::*;

verus! {

/// The image count the engine prefers when the surface supports it;
/// mitigates a known full-screen presentation stall on one platform
/// family.
pub const PREFERRED_IMAGE_COUNT: u32 = 3;

/// The surface capabilities the configuration depends on, as the driver
/// reported them.
#[derive(Clone, Copy, Debug, PartialEq, Eq)]
pub struct SurfaceCaps {
    /// Fewest presentable images a swapchain of this surface may have.
    pub min_image_count: u32,
    /// Most presentable images a swapchain of this surface may have.
    pub max_image_count: u32,
    /// The extent the surface is pinned to, if it has an explicit size.
    pub current_extent: Option<Extent2d>,
    /// Smallest supported extent.
    pub min_extent: Extent2d,
    /// Largest supported extent.
    pub max_extent: Extent2d,
}

impl SurfaceCaps {
    /// What the engine assumes of a usable capability report: image
    /// counts form a nonempty range starting at 1 or more, extents form
    /// a nonempty range of nonzero sizes, and an explicit current extent
    /// lies inside that range. The graphics API itself guarantees only
    /// the image-count and containment parts; a minimized window may
    /// report zero extents, and such a report falls outside `wf`.
    pub open spec fn wf(self) -> bool {
        &&& 1 <= self.min_image_count <= self.max_image_count
        &&& 1 <= self.min_extent.width <= self.max_extent.width
        &&& 1 <= self.min_extent.height <= self.max_extent.height
        &&& self.current_extent matches Some(e) ==> {
            &&& self.min_extent.width <= e.width <= self.max_extent.width
            &&& self.min_extent.height <= e.height <= self.max_extent.height
        }
    }
}

/// One swapchain configuration: the color format chosen at startup, the
/// extent the surface settled on, and how many presentable images to
/// rotate through.
#[derive(Clone, Copy, Debug, PartialEq, Eq, Structural)]
pub struct SwapchainConfig {
    pub format: FormatChoice,
    pub extent: Extent2d,
    pub image_count: u32,
}

/// The extent the surface settles on for a request: its own explicit
/// extent when it has one, otherwise the request clamped into the
/// supported range.
pub open spec fn settled_extent(caps: SurfaceCaps, requested: Extent2d) -> Extent2d {
    match caps.current_extent {
        Some(e) => e,
        None => clamped_extent(requested, caps.min_extent, caps.max_extent),
    }
}

/// The image count the engine settles on: the preferred count forced
/// into the supported range, so it equals the preferred count exactly
/// when the surface supports that.
pub open spec fn settled_image_count(caps: SurfaceCaps) -> u32 {
    clamped(PREFERRED_IMAGE_COUNT, caps.min_image_count, caps.max_image_count)
}

/// The configuration derived for the given capabilities, startup color
/// format, and requested extent.
pub open spec fn derived_config(caps: SurfaceCaps, format: FormatChoice, requested: Extent2d) -> SwapchainConfig {
    SwapchainConfig {
        format,
        extent: settled_extent(caps, requested),
        image_count: settled_image_count(caps),
    }
}

/// Builds the swapchain configuration for the current capabilities, the
/// color format chosen at startup, and the extent the window asked for.
///
/// On a well-formed capability report the image count lands in the
/// supported range (and equals the preferred count exactly when that is
/// supported), and the settled extent is at least one pixel in each
/// dimension.
pub fn derive_swapchain_config(caps: SurfaceCaps, format: FormatChoice, requested: Extent2d) -> (
    cfg: SwapchainConfig)
    ensures
        cfg == derived_config(caps, format, requested),
        caps.wf() ==> {
            &&& caps.min_image_count <= cfg.image_count <= caps.max_image_count
            &&& caps.min_image_count <= PREFERRED_IMAGE_COUNT <= caps.max_image_count
                ==> cfg.image_count == PREFERRED_IMAGE_COUNT
            &&& cfg.extent.width >= 1 && cfg.extent.height >= 1
        },
{
    let extent = match caps.current_extent {
        Some(e) => e,
        None => clamp_extent(requested, caps.min_extent, caps.max_extent),
    };
    let image_count = crate::extent::clamp_dim(
        PREFERRED_IMAGE_COUNT,
        caps.min_image_count,
        caps.max_image_count,
    );
    SwapchainConfig { format, extent, image_count }
}

} // verus!
