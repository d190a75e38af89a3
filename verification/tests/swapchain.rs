use aspen_engine::window::AspenWindow;
use aspen_engine::window::CompositeAlpha;
use aspen_engine::window::Extent;
use aspen_engine::window::SurfaceCapabilities;
use aspen_engine::window::WindowErrorType;
use aspen_engine::window::viewport_for_extent;

fn caps(min_image_count: u32) -> SurfaceCapabilities {
    SurfaceCapabilities {
        min_image_count,
        supported_composite_alpha: vec![CompositeAlpha::Opaque, CompositeAlpha::Inherit],
    }
}

fn formats() -> Vec<u32> {
    vec![44, 50, 37]
}

#[test]
fn first_creation_picks_count_format_and_alpha() {
    let mut w = AspenWindow::new(7);
    assert!(w.present.is_none());
    assert!(w.should_recreate_swapchain);

    let extent = Extent { width: 800, height: 600 };
    w.recreate_swapchain(&caps(3), &formats(), extent).unwrap();

    let p = w.present.unwrap();
    assert_eq!(p.image_count, 3);
    assert_eq!(p.image_format, 44);
    assert_eq!(p.composite_alpha, CompositeAlpha::Opaque);
    assert_eq!(p.extent, extent);
    assert_eq!(p.generation, 0);
    assert!(!w.should_recreate_swapchain);
}

#[test]
fn image_count_is_at_least_two() {
    let mut w = AspenWindow::new(7);
    let extent = Extent { width: 100, height: 100 };
    w.recreate_swapchain(&caps(1), &formats(), extent).unwrap();
    assert_eq!(w.present.unwrap().image_count, 2);
}

#[test]
fn zero_extent_recreate_is_a_noop() {
    let mut w = AspenWindow::new(7);
    w.recreate_swapchain(&caps(2), &formats(), Extent { width: 800, height: 600 }).unwrap();
    let before = w.present;
    let dirty_before = w.should_recreate_swapchain;

    w.recreate_swapchain(&caps(2), &formats(), Extent { width: 0, height: 600 }).unwrap();
    assert_eq!(w.present, before);
    assert_eq!(w.should_recreate_swapchain, dirty_before);

    w.recreate_swapchain(&caps(2), &formats(), Extent { width: 800, height: 0 }).unwrap();
    assert_eq!(w.present, before);
    assert_eq!(w.should_recreate_swapchain, dirty_before);
}

#[test]
fn zero_extent_on_fresh_window_is_a_noop_too() {
    let mut w = AspenWindow::new(7);
    w.recreate_swapchain(&caps(2), &formats(), Extent { width: 0, height: 0 }).unwrap();
    assert!(w.present.is_none());
    assert!(w.should_recreate_swapchain);
}

#[test]
fn rebuild_keeps_count_and_format_and_changes_extent() {
    let mut w = AspenWindow::new(7);
    w.recreate_swapchain(&caps(3), &formats(), Extent { width: 800, height: 600 }).unwrap();
    w.set_recreate_swapchain();
    assert!(w.should_recreate_swapchain);

    w.recreate_swapchain(&caps(3), &formats(), Extent { width: 400, height: 300 }).unwrap();
    let p = w.present.unwrap();
    assert_eq!(p.image_count, 3);
    assert_eq!(p.image_format, 44);
    assert_eq!(p.extent, Extent { width: 400, height: 300 });
    assert_eq!(p.generation, 1);
    assert!(!w.should_recreate_swapchain);
}

#[test]
fn viewport_tracks_recreated_extent() {
    let mut w = AspenWindow::new(7);
    w.recreate_swapchain(&caps(2), &formats(), Extent { width: 800, height: 600 }).unwrap();
    w.recreate_swapchain(&caps(2), &formats(), Extent { width: 1024, height: 768 }).unwrap();

    let v = w.present.unwrap().viewport;
    assert_eq!([v.offset_x as f32, v.offset_y as f32], [0.0, 0.0]);
    assert_eq!([v.width as f32, v.height as f32], [1024.0, 768.0]);
    assert_eq!((v.depth_min as f32, v.depth_max as f32), (0.0, 1.0));
}

#[test]
fn empty_composite_alpha_set_fails_creation() {
    let mut w = AspenWindow::new(7);
    let bad = SurfaceCapabilities { min_image_count: 2, supported_composite_alpha: Vec::new() };
    let err = w.recreate_swapchain(&bad, &formats(), Extent { width: 800, height: 600 }).unwrap_err();
    assert!(matches!(err.error_type, WindowErrorType::GetWindowCompositeSurfaceFailed));
    assert!(w.present.is_none());
}

#[test]
fn rebuild_does_not_consult_composite_alpha_again() {
    let mut w = AspenWindow::new(7);
    w.recreate_swapchain(&caps(2), &formats(), Extent { width: 800, height: 600 }).unwrap();
    // In-place rebuilds keep the creation-time settings; an inconsistent
    // capability report at that point can no longer fail the rebuild.
    let bad = SurfaceCapabilities { min_image_count: 9, supported_composite_alpha: Vec::new() };
    w.recreate_swapchain(&bad, &formats(), Extent { width: 640, height: 480 }).unwrap();
    let p = w.present.unwrap();
    assert_eq!(p.image_count, 2);
    assert_eq!(p.composite_alpha, CompositeAlpha::Opaque);
}

#[test]
fn viewport_for_extent_is_origin_and_unit_depth() {
    let v = viewport_for_extent(Extent { width: 321, height: 123 });
    assert_eq!(v.offset_x, 0);
    assert_eq!(v.offset_y, 0);
    assert_eq!(v.width, 321);
    assert_eq!(v.height, 123);
    assert_eq!(v.depth_min, 0);
    assert_eq!(v.depth_max, 1);
}

#[test]
fn window_reports_its_identifier() {
    let w = AspenWindow::new(42);
    assert_eq!(w.id(), 42);
}
