use engine::error::EngineError;
use engine::geometry::Extent;
use engine::geometry::Viewport;
use engine::swapchain::create_framebuffers;
use engine::swapchain::plan_image_count;
use engine::swapchain::plan_swapchain;
use engine::swapchain::recreate_desc;
use engine::swapchain::SurfaceCaps;
use engine::swapchain::SwapchainDesc;
use engine::swapchain::WindowModel;

fn caps(min: u32, max: Option<u32>, formats: Vec<u32>, alpha_modes: Vec<u32>) -> SurfaceCaps {
    SurfaceCaps { min_image_count: min, max_image_count: max, formats, alpha_modes }
}

#[test]
fn image_count_is_min_plus_one() {
    assert_eq!(plan_image_count(2, None), 3);
    assert_eq!(plan_image_count(0, None), 1);
}

#[test]
fn image_count_clamped_to_driver_maximum() {
    assert_eq!(plan_image_count(2, Some(8)), 3);
    assert_eq!(plan_image_count(2, Some(2)), 2);
    assert_eq!(plan_image_count(3, Some(3)), 3);
}

#[test]
fn plan_picks_first_format_and_alpha() {
    let c = caps(2, Some(8), vec![7, 9, 11], vec![3, 5]);
    let drawable = Extent { width: 800, height: 600 };
    let desc = plan_swapchain(&c, drawable).unwrap();
    assert_eq!(desc.format, 7);
    assert_eq!(desc.alpha, 3);
    assert_eq!(desc.image_count, 3);
    assert_eq!(desc.extent, drawable);
}

#[test]
fn plan_fails_without_formats() {
    let c = caps(2, None, vec![], vec![3]);
    let r = plan_swapchain(&c, Extent { width: 800, height: 600 });
    assert_eq!(r, Err(EngineError::NoSurfaceFormats));
}

#[test]
fn plan_fails_without_alpha_modes() {
    let c = caps(2, None, vec![7], vec![]);
    let r = plan_swapchain(&c, Extent { width: 800, height: 600 });
    assert_eq!(r, Err(EngineError::NoCompositeAlpha));
}

#[test]
fn recreation_overrides_only_extent() {
    let desc = SwapchainDesc {
        image_count: 3,
        format: 7,
        alpha: 3,
        extent: Extent { width: 800, height: 600 },
    };
    let recreated = recreate_desc(&desc, Extent { width: 1024, height: 768 });
    assert_eq!(recreated.image_count, 3);
    assert_eq!(recreated.format, 7);
    assert_eq!(recreated.alpha, 3);
    assert_eq!(recreated.extent, Extent { width: 1024, height: 768 });
}

#[test]
fn recreation_twice_with_same_size_is_idempotent() {
    let desc = SwapchainDesc {
        image_count: 3,
        format: 7,
        alpha: 3,
        extent: Extent { width: 800, height: 600 },
    };
    let size = Extent { width: 640, height: 480 };
    let once = recreate_desc(&desc, size);
    let twice = recreate_desc(&once, size);
    assert_eq!(once, twice);
    assert_eq!(twice.extent, size);
    assert_eq!(twice.image_count, desc.image_count);
}

#[test]
fn window_recreation_twice_with_same_size_yields_same_swapchain() {
    let drawable = Extent { width: 800, height: 600 };
    let mut w = WindowModel::new(drawable);
    let c = caps(2, None, vec![7], vec![3]);
    w.create_swapchain(&c, drawable).unwrap();
    let size = Extent { width: 640, height: 480 };
    let once = w.recreate_swapchain(size);
    let twice = w.recreate_swapchain(size);
    assert_eq!(once, twice);
    assert_eq!(twice.extent, size);
    assert_eq!(twice.image_count, once.image_count);
}

#[test]
fn framebuffers_bind_one_image_each() {
    let targets = create_framebuffers(3);
    assert_eq!(targets.len(), 3);
    for (i, t) in targets.iter().enumerate() {
        assert_eq!(t.image_index as usize, i);
    }
}

#[test]
fn accessors_reject_unprovisioned_window() {
    let w = WindowModel::new(Extent { width: 800, height: 600 });
    assert_eq!(w.get_swapchain(), Err(EngineError::NotProvisioned));
    assert_eq!(w.get_render_pass(), Err(EngineError::NotProvisioned));
    assert!(w.get_framebuffers().is_err());
}

#[test]
fn provisioning_fills_swapchain_render_pass_and_targets() {
    let drawable = Extent { width: 800, height: 600 };
    let mut w = WindowModel::new(drawable);
    assert_eq!(
        w.get_window_viewport(),
        Viewport { offset_x: 0, offset_y: 0, extent: drawable }
    );
    let c = caps(2, None, vec![7], vec![3]);
    let desc = w.create_swapchain(&c, drawable).unwrap();
    assert_eq!(w.get_swapchain(), Ok(desc));
    assert_eq!(w.get_render_pass().unwrap().color_format, 7);
    assert_eq!(w.get_framebuffers().unwrap().len(), 3);
}

#[test]
fn window_recreation_keeps_render_pass_and_viewport() {
    let drawable = Extent { width: 800, height: 600 };
    let mut w = WindowModel::new(drawable);
    let c = caps(2, None, vec![7], vec![3]);
    w.create_swapchain(&c, drawable).unwrap();
    let render_pass = w.get_render_pass().unwrap();
    let new_size = Extent { width: 1024, height: 768 };
    let desc = w.recreate_swapchain(new_size);
    assert_eq!(desc.extent, new_size);
    assert_eq!(desc.format, 7);
    assert_eq!(w.get_render_pass().unwrap(), render_pass);
    assert_eq!(w.get_window_viewport().extent, drawable);
    assert_eq!(w.get_framebuffers().unwrap().len(), 3);
}
