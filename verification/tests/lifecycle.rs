use graphical_engine::engine::{
    FramebufferDesc, GraphicalEngine, LogicalDevice, RecreationOutcome, RenderPassDesc,
};
use graphical_engine::select::DeviceSelection;
use graphical_engine::swapchain::{
    plan_swap_chain, CompositeAlpha, Extent, SurfaceCapabilities, SurfaceFormat,
    SwapchainCreationError,
};

fn extent(width: u32, height: u32) -> Extent {
    Extent { width, height }
}

fn test_capabilities() -> SurfaceCapabilities {
    SurfaceCapabilities {
        min_image_count: 2,
        max_image_count: Some(8),
        supported_composite_alpha: vec![CompositeAlpha::Opaque, CompositeAlpha::Inherit],
    }
}

fn test_formats() -> Vec<SurfaceFormat> {
    vec![
        SurfaceFormat { format: 44, color_space: 0 },
        SurfaceFormat { format: 50, color_space: 0 },
    ]
}

fn bootstrapped_engine() -> GraphicalEngine {
    let selection = DeviceSelection { device_index: 0, queue_family_index: 0 };
    let logical_device = LogicalDevice::new(&selection, 7);
    let config = plan_swap_chain(&test_capabilities(), &test_formats(), extent(800, 600)).unwrap();
    GraphicalEngine::new(logical_device, 1, config, vec![100, 101, 102])
}

#[test]
fn swap_chain_plan_follows_the_policy() {
    let config = plan_swap_chain(&test_capabilities(), &test_formats(), extent(800, 600)).unwrap();
    // One more image than the surface minimum, not clamped.
    assert_eq!(config.min_image_count, 3);
    // The first reported format, no preference scoring.
    assert_eq!(config.format, SurfaceFormat { format: 44, color_space: 0 });
    // The window's inner size at creation time.
    assert_eq!(config.image_extent, extent(800, 600));
    // The first supported composite alpha mode.
    assert_eq!(config.composite_alpha, CompositeAlpha::Opaque);
}

#[test]
fn swap_chain_plan_fails_without_formats() {
    let r = plan_swap_chain(&test_capabilities(), &Vec::new(), extent(800, 600));
    assert_eq!(r, Err(SwapchainCreationError::NoSurfaceFormats));
}

#[test]
fn swap_chain_plan_fails_without_composite_alpha() {
    let mut caps = test_capabilities();
    caps.supported_composite_alpha = Vec::new();
    let r = plan_swap_chain(&caps, &test_formats(), extent(800, 600));
    assert_eq!(r, Err(SwapchainCreationError::NoCompositeAlphaSupported));
}

#[test]
fn render_pass_uses_the_swap_chain_format() {
    let engine = bootstrapped_engine();
    let render_pass = engine.create_render_pass();
    assert_eq!(render_pass.color_format, engine.get_swap_chain().format);
}

#[test]
fn one_framebuffer_per_swap_chain_image() {
    let engine = bootstrapped_engine();
    let render_pass = engine.create_render_pass();
    let buffers = engine.create_frame_buffers(&render_pass);
    assert_eq!(buffers.len(), engine.get_swap_chain_images().len());
    assert_eq!(
        buffers,
        vec![
            FramebufferDesc { image: 100, attachment_format: render_pass.color_format },
            FramebufferDesc { image: 101, attachment_format: render_pass.color_format },
            FramebufferDesc { image: 102, attachment_format: render_pass.color_format },
        ]
    );
}

#[test]
fn rejected_extent_produces_nothing_and_leaves_state_untouched() {
    let mut engine = bootstrapped_engine();
    let render_pass = engine.create_render_pass();
    let before_config = engine.get_swap_chain();
    let before_images = engine.get_swap_chain_images().clone();

    let r = engine.recreate_swap_chain_and_images(
        &render_pass,
        extent(0, 0),
        RecreationOutcome::ImageExtentNotSupported,
    );
    assert!(r.is_none());
    assert_eq!(engine.get_swap_chain(), before_config);
    assert_eq!(engine.get_swap_chain_images(), &before_images);
}

#[test]
fn successful_recreation_replaces_swap_chain_and_rebuilds_framebuffers() {
    let mut engine = bootstrapped_engine();
    let render_pass = engine.create_render_pass();
    let before_config = engine.get_swap_chain();

    let buffers = engine
        .recreate_swap_chain_and_images(
            &render_pass,
            extent(1024, 768),
            RecreationOutcome::Recreated { images: vec![200, 201, 202] },
        )
        .unwrap();

    let after_config = engine.get_swap_chain();
    assert_eq!(after_config.image_extent, extent(1024, 768));
    assert_eq!(after_config.min_image_count, before_config.min_image_count);
    assert_eq!(after_config.format, before_config.format);
    assert_eq!(after_config.composite_alpha, before_config.composite_alpha);
    assert_eq!(engine.get_swap_chain_images(), &vec![200, 201, 202]);
    assert_eq!(buffers.len(), 3);
    assert_eq!(buffers[0].image, 200);
}

#[test]
fn resize_scenario_from_creation_through_recovery() {
    // Initial window size 800x600: the swapchain is created with that extent
    // and one more image than the surface minimum.
    let selection = DeviceSelection { device_index: 0, queue_family_index: 0 };
    let logical_device = LogicalDevice::new(&selection, 7);
    assert_eq!(logical_device.get_first_queue(), 7);
    let config = plan_swap_chain(&test_capabilities(), &test_formats(), extent(800, 600)).unwrap();
    assert_eq!(config.image_extent, extent(800, 600));
    assert_eq!(config.min_image_count, 3);
    let mut engine = GraphicalEngine::new(logical_device, 1, config, vec![10, 11, 12]);
    let render_pass = engine.create_render_pass();

    // Window resized to 0x0: the driver rejects the extent, no framebuffers
    // are produced, the old swapchain stays.
    let r = engine.recreate_swap_chain_and_images(
        &render_pass,
        extent(0, 0),
        RecreationOutcome::ImageExtentNotSupported,
    );
    assert!(r.is_none());
    assert_eq!(engine.get_swap_chain().image_extent, extent(800, 600));
    assert_eq!(engine.get_swap_chain_images(), &vec![10, 11, 12]);

    // Window resized to 1024x768: recreation succeeds with the new extent
    // and the same derived image and framebuffer count.
    let buffers = engine
        .recreate_swap_chain_and_images(
            &render_pass,
            extent(1024, 768),
            RecreationOutcome::Recreated { images: vec![20, 21, 22] },
        )
        .unwrap();
    assert_eq!(engine.get_swap_chain().image_extent, extent(1024, 768));
    assert_eq!(engine.get_swap_chain().min_image_count, 3);
    assert_eq!(engine.get_swap_chain_images().len(), 3);
    assert_eq!(buffers.len(), 3);
}
