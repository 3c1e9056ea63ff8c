//! The engine's owned state: the logical device, the current swapchain
//! configuration and images, framebuffer building, and swapchain recreation.

use vstd::prelude::*;
use crate::select::DeviceSelection;
use crate::swapchain::{Extent, SurfaceFormat, SwapchainConfig};

verus! {

/// A logical device: the selected physical device (by its position in the
/// enumerated list), the chosen queue family index, and the handles of the
/// queues created in that family.
#[derive(Clone, Debug)]
pub struct LogicalDevice {
    /// Position of the underlying physical device in the enumerated list.
    pub device_index: usize,
    /// The queue family every queue was created in.
    pub queue_family_index: u32,
    /// Handles of the created queues, in creation order.
    pub queues: Vec<u64>,
}

impl LogicalDevice {
    /// A logical device always owns at least one queue.
    pub open spec fn well_formed(self) -> bool {
        self.queues@.len() >= 1
    }

    /// Wraps a device created from the given selection, with exactly one
    /// queue in the selected family (single-queue design).
    pub fn new(selection: &DeviceSelection, queue: u64) -> (r: Self)
        ensures
            r.device_index == selection.device_index,
            r.queue_family_index == selection.queue_family_index,
            r.queues@ =~= seq![queue],
            r.well_formed(),
    {
        LogicalDevice {
            device_index: selection.device_index,
            queue_family_index: selection.queue_family_index,
            queues: vec![queue],
        }
    }

    /// Returns the first queue of the device.
    pub fn get_first_queue(&self) -> (q: u64)
        requires
            self.well_formed(),
        ensures
            q == self.queues@[0],
    {
        self.queues[0]
    }
}

/// A render pass description, as far as this core constrains it: the format
/// of its single color attachment, which must match the swapchain's image
/// format.
#[derive(Clone, Copy, PartialEq, Eq, Structural, Debug)]
pub struct RenderPassDesc {
    pub color_format: SurfaceFormat,
}

/// A framebuffer: it wraps a view of exactly one swapchain image, built
/// against a render pass attachment of the given format.
#[derive(Clone, Copy, PartialEq, Eq, Structural, Debug)]
pub struct FramebufferDesc {
    /// Handle of the swapchain image the framebuffer's only attachment views.
    pub image: u64,
    /// The attachment format of the render pass it was built against.
    pub attachment_format: SurfaceFormat,
}

/// The outcome of asking the driver to recreate the swapchain with a new
/// extent. Any driver failure other than a rejected extent is fatal to the
/// caller and never reaches this core.
#[derive(Clone, Debug)]
pub enum RecreationOutcome {
    /// The driver produced a new swapchain with these image handles.
    Recreated { images: Vec<u64> },
    /// The driver rejected the requested extent (window minimized to zero
    /// size or a mid-resize transient state). Recoverable: the caller skips
    /// the frame and retries on the next tick.
    ImageExtentNotSupported,
}

/// The configuration a recreation asks the driver for: the prior
/// configuration with only the image extent replaced.
pub open spec fn recreated_config(prior: SwapchainConfig, dimensions: Extent) -> SwapchainConfig {
    SwapchainConfig { image_extent: dimensions, ..prior }
}

/// The framebuffers derived from a sequence of swapchain images: one per
/// image, in image order, each built against the same render pass.
pub open spec fn framebuffers_for(images: Seq<u64>, render_pass: RenderPassDesc) -> Seq<
    FramebufferDesc,
> {
    images.map(|i: int, img: u64| FramebufferDesc { image: img, attachment_format: render_pass.color_format })
}

/// After any successful swapchain creation or recreation there is exactly
/// one framebuffer per swapchain image, each wrapping its image.
pub proof fn lemma_one_framebuffer_per_image(images: Seq<u64>, render_pass: RenderPassDesc)
    ensures
        framebuffers_for(images, render_pass).len() == images.len(),
        forall|i: int|
            0 <= i < images.len() ==> #[trigger] framebuffers_for(images, render_pass)[i].image
                == images[i],
{
}

/// The device-selection, swapchain and framebuffer lifecycle manager. It
/// owns the logical device, the current swapchain configuration and the
/// current swapchain images; the surface itself is owned by the windowing
/// collaborator and carried here as an opaque handle.
#[derive(Clone, Debug)]
pub struct GraphicalEngine {
    /// The logical device the engine was built with; never recreated.
    pub logical_device: LogicalDevice,
    /// Opaque handle of the window surface the engine presents to.
    pub window: u64,
    /// The configuration of the current swapchain.
    pub swap_chain: SwapchainConfig,
    /// Handles of the current swapchain images, replaced wholesale on every
    /// successful recreation.
    pub swap_chain_images: Vec<u64>,
}

impl GraphicalEngine {
    /// The engine's invariant: its logical device is well formed.
    pub open spec fn well_formed(self) -> bool {
        self.logical_device.well_formed()
    }

    /// Assembles an engine from the logical device built for the selected
    /// physical device, the surface handle, the initial swapchain
    /// configuration, and the images the initial swapchain was created with.
    pub fn new(
        logical_device: LogicalDevice,
        window: u64,
        swap_chain: SwapchainConfig,
        swap_chain_images: Vec<u64>,
    ) -> (r: Self)
        requires
            logical_device.well_formed(),
        ensures
            r.logical_device == logical_device,
            r.window == window,
            r.swap_chain == swap_chain,
            r.swap_chain_images@ == swap_chain_images@,
            r.well_formed(),
    {
        GraphicalEngine { logical_device, window, swap_chain, swap_chain_images }
    }

    /// Returns the surface handle of the window the engine presents to.
    pub fn get_window(&self) -> (r: u64)
        ensures
            r == self.window,
    {
        self.window
    }

    /// Returns the current swapchain configuration.
    pub fn get_swap_chain(&self) -> (r: SwapchainConfig)
        ensures
            r == self.swap_chain,
    {
        self.swap_chain
    }

    /// Returns the handles of the current swapchain images.
    pub fn get_swap_chain_images(&self) -> (r: &Vec<u64>)
        ensures
            r@ == self.swap_chain_images@,
    {
        &self.swap_chain_images
    }

    /// Returns the engine's logical device.
    pub fn get_logical_device(&self) -> (r: &LogicalDevice)
        ensures
            *r == self.logical_device,
    {
        &self.logical_device
    }

    /// Describes the render pass the engine bootstraps with: a single
    /// subpass over one color attachment whose format is the swapchain's
    /// image format.
    pub fn create_render_pass(&self) -> (r: RenderPassDesc)
        ensures
            r.color_format == self.swap_chain.format,
    {
        RenderPassDesc { color_format: self.swap_chain.format }
    }

    /// Builds one framebuffer per current swapchain image, each wrapping a
    /// view of its image as the only attachment of the given render pass.
    ///
    /// The render pass's attachment format must match the swapchain's image
    /// format; a mismatch is a caller error, rejected by the driver.
    pub fn create_frame_buffers(&self, render_pass: &RenderPassDesc) -> (r: Vec<FramebufferDesc>)
        requires
            render_pass.color_format == self.swap_chain.format,
        ensures
            r@ == framebuffers_for(self.swap_chain_images@, *render_pass),
            r@.len() == self.swap_chain_images@.len(),
    {
        let n = self.swap_chain_images.len();
        let mut buffers: Vec<FramebufferDesc> = Vec::new();
        let mut idx: usize = 0;
        while idx < n
            invariant
                n == self.swap_chain_images@.len(),
                idx <= n,
                buffers@ =~= framebuffers_for(self.swap_chain_images@.subrange(0, idx as int), *render_pass),
            decreases n - idx,
        {
            buffers.push(
                FramebufferDesc {
                    image: self.swap_chain_images[idx],
                    attachment_format: render_pass.color_format,
                },
            );
            idx = idx + 1;
        }
        assert(self.swap_chain_images@.subrange(0, n as int) =~= self.swap_chain_images@);
        buffers
    }

    /// The configuration a recreation will ask the driver for: the current
    /// configuration with the image extent replaced by the window's current
    /// inner pixel size.
    pub fn plan_recreation(&self, new_dimensions: Extent) -> (r: SwapchainConfig)
        ensures
            r == recreated_config(self.swap_chain, new_dimensions),
    {
        SwapchainConfig {
            min_image_count: self.swap_chain.min_image_count,
            format: self.swap_chain.format,
            image_extent: new_dimensions,
            composite_alpha: self.swap_chain.composite_alpha,
        }
    }

    /// Applies the outcome of a swapchain recreation at the given window
    /// dimensions, and rebuilds the framebuffers against the given render
    /// pass.
    ///
    /// On success the stored swapchain configuration and images are replaced
    /// atomically — the configuration keeps everything but the extent — and
    /// exactly one framebuffer per new image is returned. When the driver
    /// rejected the extent (zero-sized or mid-resize window), no framebuffers
    /// are produced and the prior swapchain and images are left untouched;
    /// the caller skips the frame and retries on a later tick.
    pub fn recreate_swap_chain_and_images(
        &mut self,
        render_pass: &RenderPassDesc,
        new_dimensions: Extent,
        outcome: RecreationOutcome,
    ) -> (r: Option<Vec<FramebufferDesc>>)
        requires
            render_pass.color_format == old(self).swap_chain.format,
        ensures
            final(self).logical_device == old(self).logical_device,
            final(self).window == old(self).window,
            final(self).well_formed() == old(self).well_formed(),
            match outcome {
                RecreationOutcome::Recreated { images } => {
                    &&& final(self).swap_chain == recreated_config(
                        old(self).swap_chain,
                        new_dimensions,
                    )
                    &&& final(self).swap_chain_images@ == images@
                    &&& r matches Some(buffers) && buffers@ == framebuffers_for(
                        images@,
                        *render_pass,
                    ) && buffers@.len() == images@.len()
                },
                RecreationOutcome::ImageExtentNotSupported => {
                    &&& r is None
                    &&& *final(self) == *old(self)
                },
            },
    {
        match outcome {
            RecreationOutcome::Recreated { images } => {
                self.swap_chain = self.plan_recreation(new_dimensions);
                self.swap_chain_images = images;
                Some(self.create_frame_buffers(render_pass))
            },
            RecreationOutcome::ImageExtentNotSupported => None,
        }
    }
}

} // verus!
