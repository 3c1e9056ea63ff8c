//! Swapchain configuration policy: how surface capabilities and surface
//! formats are turned into the configuration the swapchain is created with.

use vstd::prelude::*;

verus! {

/// A window extent in pixels.
#[derive(Clone, Copy, PartialEq, Eq, Structural, Debug)]
pub struct Extent {
    pub width: u32,
    pub height: u32,
}

/// A surface format as reported by the driver: a pixel format and a color
/// space, each carried as the driver's numeric identifier.
#[derive(Clone, Copy, PartialEq, Eq, Structural, Debug)]
pub struct SurfaceFormat {
    pub format: u32,
    pub color_space: u32,
}

/// A composite alpha mode the surface can be presented with.
#[derive(Clone, Copy, PartialEq, Eq, Structural, Debug)]
pub enum CompositeAlpha {
    Opaque,
    PreMultiplied,
    PostMultiplied,
    Inherit,
}

/// Surface capabilities read from the physical device underlying the logical
/// device, as far as the swapchain policy consumes them.
#[derive(Clone, Debug)]
pub struct SurfaceCapabilities {
    /// The smallest image count the surface supports.
    pub min_image_count: u32,
    /// The largest image count the surface supports; `None` means unbounded.
    /// The policy deliberately does not clamp against it.
    pub max_image_count: Option<u32>,
    /// The supported composite alpha modes, in the driver's reported order.
    pub supported_composite_alpha: Vec<CompositeAlpha>,
}

/// The configuration a swapchain is created or recreated with. Image usage
/// is always color-attachment only and is not represented.
#[derive(Clone, Copy, PartialEq, Eq, Structural, Debug)]
pub struct SwapchainConfig {
    /// Requested image count: one more than the surface's minimum.
    pub min_image_count: u32,
    /// The image format, taken as the first reported surface format.
    pub format: SurfaceFormat,
    /// The image extent: the window's inner pixel size at creation time.
    pub image_extent: Extent,
    /// The first composite alpha mode reported as supported.
    pub composite_alpha: CompositeAlpha,
}

/// The surface and device combination cannot produce a swapchain
/// configuration. Fatal to the caller; not retried.
#[derive(Clone, Copy, PartialEq, Eq, Structural, Debug)]
pub enum SwapchainCreationError {
    /// The surface format query returned no formats.
    NoSurfaceFormats,
    /// No composite alpha mode is reported as supported.
    NoCompositeAlphaSupported,
}

/// The configuration the policy derives from capabilities, formats and the
/// current window dimensions: `min_image_count + 1` images, the first
/// reported format, the given extent, the first supported composite alpha.
pub open spec fn planned_config(
    caps: SurfaceCapabilities,
    formats: Seq<SurfaceFormat>,
    dimensions: Extent,
) -> SwapchainConfig {
    SwapchainConfig {
        min_image_count: (caps.min_image_count + 1) as u32,
        format: formats[0],
        image_extent: dimensions,
        composite_alpha: caps.supported_composite_alpha@[0],
    }
}

/// Plans the swapchain configuration for a surface whose capabilities and
/// formats were read from the physical device, and whose window currently
/// has the given inner pixel size.
///
/// The image count is `min_image_count + 1`, not clamped against the
/// surface's maximum; the format is the first one the driver reported (no
/// preference scoring); the composite alpha is the first supported mode.
/// Fails exactly when the driver reported no format or no composite alpha
/// mode.
pub fn plan_swap_chain(
    caps: &SurfaceCapabilities,
    formats: &Vec<SurfaceFormat>,
    dimensions: Extent,
) -> (r: Result<SwapchainConfig, SwapchainCreationError>)
    requires
        caps.min_image_count < u32::MAX,
    ensures
        match r {
            Ok(c) => {
                &&& formats@.len() > 0
                &&& caps.supported_composite_alpha@.len() > 0
                &&& c == planned_config(*caps, formats@, dimensions)
            },
            Err(e) => match e {
                SwapchainCreationError::NoSurfaceFormats => formats@.len() == 0,
                SwapchainCreationError::NoCompositeAlphaSupported => {
                    &&& formats@.len() > 0
                    &&& caps.supported_composite_alpha@.len() == 0
                },
            },
        },
{
    if formats.len() == 0 {
        return Err(SwapchainCreationError::NoSurfaceFormats);
    }
    if caps.supported_composite_alpha.len() == 0 {
        return Err(SwapchainCreationError::NoCompositeAlphaSupported);
    }
    Ok(
        SwapchainConfig {
            min_image_count: caps.min_image_count + 1,
            format: formats[0],
            image_extent: dimensions,
            composite_alpha: caps.supported_composite_alpha[0],
        },
    )
}

} // verus!
