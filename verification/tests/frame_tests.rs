use frameloop::context::Registry;
use frameloop::device::{DeviceClass, DeviceInfo, QueueFamilyInfo, QueueSlot, select_device};
use frameloop::geometry::{logical_extent, logical_len, Extent, ScaleFactor};
use frameloop::renderer::{DrawEnv, Renderer};
use frameloop::swapchain::AcquireOutcome;
use frameloop::swapchain::{choose_alpha, surface_color_type, AlphaMode, ImageFormat, SurfaceColorType};
use frameloop::RenderError;

fn family(graphics: bool, present: bool) -> QueueFamilyInfo {
    QueueFamilyInfo { graphics, present }
}

fn device(class: DeviceClass, has_ext: bool, families: Vec<QueueFamilyInfo>) -> DeviceInfo {
    DeviceInfo { class, has_swapchain_extension: has_ext, queue_families: families }
}

fn one_device() -> Vec<DeviceInfo> {
    vec![device(DeviceClass::DiscreteGpu, true, vec![family(true, true)])]
}

fn env(extent: Extent, first: AcquireOutcome) -> DrawEnv {
    DrawEnv {
        window_extent: extent,
        scale: ScaleFactor::identity(),
        first,
        retry: AcquireOutcome::Ready { image_index: 0, suboptimal: false },
        image_count: 3,
        image_count_retry: 3,
        present_ok: true,
    }
}

fn ready(image_index: u32) -> AcquireOutcome {
    AcquireOutcome::Ready { image_index, suboptimal: false }
}

fn new_renderer(id: u64, extent: Extent, format: ImageFormat) -> Renderer {
    let mut slot = QueueSlot::new();
    Renderer::for_window(
        &mut slot,
        &one_device(),
        id,
        extent,
        format,
        &vec![AlphaMode::Opaque],
    )
    .unwrap()
}

#[test]
fn first_draw_creates_swapchain_at_window_size() {
    // window opens at 800x600 logical, scale 1.0: the first draw builds a
    // swapchain of that extent with one framebuffer per image and hands the
    // paint callback the logical size (800, 600)
    let mut r = new_renderer(1, Extent::new(800, 600), ImageFormat::B8g8r8a8Unorm);
    assert!(!r.swapchain_is_valid);
    assert_eq!(r.framebuffers.len(), 0);

    let mut reg = Registry::new();
    let result = r.draw(&mut reg, &env(Extent::new(800, 600), ready(0))).unwrap();

    assert_eq!(result.rebuilds, 1);
    assert_eq!(result.acquisitions, 1);
    let p = result.painted.unwrap();
    assert_eq!(p.logical, Extent::new(800, 600));
    assert_eq!(p.framebuffer_extent, Extent::new(800, 600));
    assert_eq!(p.image_index, 0);
    assert_eq!(p.frame_serial, 1);
    assert!(r.swapchain_is_valid);
    assert_eq!(r.extent, Extent::new(800, 600));
    assert_eq!(r.framebuffers, vec![Extent::new(800, 600); 3]);
}

#[test]
fn resize_invalidates_and_next_draw_rebuilds() {
    // resized to 400x300 while the swapchain is valid: the next draw detects
    // the invalid flag, rebuilds at 400x300 and the callback sees (400, 300)
    let mut r = new_renderer(1, Extent::new(800, 600), ImageFormat::B8g8r8a8Unorm);
    let mut reg = Registry::new();
    r.draw(&mut reg, &env(Extent::new(800, 600), ready(0))).unwrap();
    assert!(r.swapchain_is_valid);

    r.resize(Extent::new(400, 300));
    assert!(!r.swapchain_is_valid);

    let result = r.draw(&mut reg, &env(Extent::new(400, 300), ready(1))).unwrap();
    assert_eq!(result.rebuilds, 1);
    let p = result.painted.unwrap();
    assert_eq!(p.logical, Extent::new(400, 300));
    assert_eq!(p.framebuffer_extent, Extent::new(400, 300));
    assert_eq!(r.extent, Extent::new(400, 300));
    assert!(r.framebuffers.iter().all(|e| *e == Extent::new(400, 300)));
}

#[test]
fn zero_extent_draw_is_a_benign_no_op() {
    let mut r = new_renderer(1, Extent::new(800, 600), ImageFormat::B8g8r8a8Unorm);
    let mut reg = Registry::new();
    for extent in [Extent::new(0, 600), Extent::new(800, 0), Extent::new(0, 0)] {
        let result = r.draw(&mut reg, &env(extent, ready(0))).unwrap();
        assert!(result.painted.is_none());
        assert_eq!(result.acquisitions, 0);
        assert_eq!(result.rebuilds, 0);
    }
    // the paint callback never ran, so no render context was ever created
    assert!(!reg.contains(1));
    assert!(!r.swapchain_is_valid);
}

#[test]
fn out_of_date_then_success_retries_exactly_once() {
    // acquisition reports out-of-date first, then succeeds on the retry: the
    // draw call succeeds and paints exactly once
    let mut r = new_renderer(1, Extent::new(800, 600), ImageFormat::B8g8r8a8Unorm);
    let mut reg = Registry::new();
    r.draw(&mut reg, &env(Extent::new(800, 600), ready(0))).unwrap();

    let mut e = env(Extent::new(800, 600), AcquireOutcome::OutOfDate);
    e.retry = ready(2);
    let result = r.draw(&mut reg, &e).unwrap();
    assert_eq!(result.acquisitions, 2);
    assert_eq!(result.rebuilds, 1);
    let p = result.painted.unwrap();
    assert_eq!(p.image_index, 2);
    assert_eq!(p.framebuffer_extent, Extent::new(800, 600));
}

#[test]
fn frame_is_dropped_after_second_out_of_date() {
    let mut r = new_renderer(1, Extent::new(800, 600), ImageFormat::B8g8r8a8Unorm);
    let mut reg = Registry::new();
    r.draw(&mut reg, &env(Extent::new(800, 600), ready(0))).unwrap();

    let mut e = env(Extent::new(800, 600), AcquireOutcome::OutOfDate);
    e.retry = AcquireOutcome::OutOfDate;
    let result = r.draw(&mut reg, &e).unwrap();
    // one rebuild, one retry, then the frame is silently dropped
    assert!(result.painted.is_none());
    assert_eq!(result.acquisitions, 2);
    assert_eq!(result.rebuilds, 1);
    assert!(!r.swapchain_is_valid);
    // the next frame starts from a clean state and succeeds
    let result = r.draw(&mut reg, &env(Extent::new(800, 600), ready(0))).unwrap();
    assert!(result.painted.is_some());
    assert_eq!(result.rebuilds, 1);
}

#[test]
fn fatal_acquisition_is_a_typed_error() {
    let mut r = new_renderer(1, Extent::new(800, 600), ImageFormat::B8g8r8a8Unorm);
    let mut reg = Registry::new();
    let err = r.draw(&mut reg, &env(Extent::new(800, 600), AcquireOutcome::Fatal));
    assert!(matches!(err, Err(RenderError::AcquisitionFailed)));

    let mut e = env(Extent::new(800, 600), AcquireOutcome::OutOfDate);
    e.retry = AcquireOutcome::Fatal;
    let err = r.draw(&mut reg, &e);
    assert!(matches!(err, Err(RenderError::AcquisitionFailed)));
}

#[test]
fn unsupported_format_is_a_typed_error() {
    let mut r = new_renderer(1, Extent::new(800, 600), ImageFormat::R8g8b8a8Unorm);
    let mut reg = Registry::new();
    let err = r.draw(&mut reg, &env(Extent::new(800, 600), ready(0)));
    assert!(matches!(err, Err(RenderError::UnsupportedFormat)));
}

#[test]
fn suboptimal_frame_proceeds_but_schedules_rebuild() {
    let mut r = new_renderer(1, Extent::new(800, 600), ImageFormat::B8g8r8a8Unorm);
    let mut reg = Registry::new();
    r.draw(&mut reg, &env(Extent::new(800, 600), ready(0))).unwrap();
    assert!(r.swapchain_is_valid);

    let e = env(
        Extent::new(800, 600),
        AcquireOutcome::Ready { image_index: 1, suboptimal: true },
    );
    let result = r.draw(&mut reg, &e).unwrap();
    // the current frame still painted, but the next one must rebuild
    assert!(result.painted.is_some());
    assert!(!r.swapchain_is_valid);
}

#[test]
fn presentation_order_matches_call_order() {
    let mut r = new_renderer(7, Extent::new(640, 480), ImageFormat::B8g8r8a8Unorm);
    let mut reg = Registry::new();
    for k in 1..=3u64 {
        let result = r.draw(&mut reg, &env(Extent::new(640, 480), ready(0))).unwrap();
        assert_eq!(result.painted.unwrap().frame_serial, k);
    }
    assert_eq!(reg.presented_of(7).unwrap(), &vec![1, 2, 3]);
    assert_eq!(reg.frames_submitted_of(7), Some(3));
}

#[test]
fn failed_present_is_silent_and_keeps_order() {
    let mut r = new_renderer(7, Extent::new(640, 480), ImageFormat::B8g8r8a8Unorm);
    let mut reg = Registry::new();
    let mut e = env(Extent::new(640, 480), ready(0));
    e.present_ok = false;
    // a failed present submission after a successful paint is not an error
    let result = r.draw(&mut reg, &e).unwrap();
    assert!(result.painted.is_some());
    assert_eq!(reg.presented_of(7).unwrap(), &Vec::<u64>::new());
    // the lost frame never reached the display; the next one is frame 1
    let result = r.draw(&mut reg, &env(Extent::new(640, 480), ready(0))).unwrap();
    assert_eq!(result.painted.unwrap().frame_serial, 1);
    assert_eq!(reg.presented_of(7).unwrap(), &vec![1]);
}

#[test]
fn close_removes_the_window_context() {
    let mut slot = QueueSlot::new();
    let devices = one_device();
    let alpha = vec![AlphaMode::Opaque];
    let mut ra = Renderer::for_window(
        &mut slot, &devices, 1, Extent::new(100, 100), ImageFormat::B8g8r8a8Unorm, &alpha,
    )
    .unwrap();
    let mut rb = Renderer::for_window(
        &mut slot, &devices, 2, Extent::new(100, 100), ImageFormat::B8g8r8a8Unorm, &alpha,
    )
    .unwrap();
    let mut reg = Registry::new();
    ra.draw(&mut reg, &env(Extent::new(100, 100), ready(0))).unwrap();
    rb.draw(&mut reg, &env(Extent::new(100, 100), ready(0))).unwrap();
    assert!(reg.contains(1) && reg.contains(2));

    ra.close(&mut reg);
    // a later lookup for the closed window's identity finds nothing
    assert!(!reg.contains(1));
    assert_eq!(reg.frames_submitted_of(1), None);
    // the other window's context is untouched
    assert_eq!(reg.frames_submitted_of(2), Some(1));
}

#[test]
fn logical_size_times_scale_recovers_extent() {
    // scale 1.0: logical size equals the physical extent
    let s1 = ScaleFactor::identity();
    assert_eq!(logical_extent(&Extent::new(800, 600), &s1), Extent::new(800, 600));
    // scale 2.0: 801 physical pixels round to 401 logical units; 401 * 2 is
    // within one pixel of 801
    let s2 = ScaleFactor { num: 2, den: 1 };
    assert_eq!(logical_len(801, &s2), 401);
    assert!((401u64 * 2).abs_diff(801) <= 1);
    // scale 1.5 as the ratio 3/2: 300 physical pixels are 200 logical units
    let s3 = ScaleFactor { num: 3, den: 2 };
    assert_eq!(logical_extent(&Extent::new(300, 453), &s3), Extent::new(200, 302));
    assert!((302u64 * 3 / 2).abs_diff(453) <= 1);
}

#[test]
fn paint_callback_gets_logical_size_under_scale() {
    let mut r = new_renderer(1, Extent::new(800, 600), ImageFormat::B8g8r8a8Unorm);
    let mut reg = Registry::new();
    let mut e = env(Extent::new(800, 600), ready(0));
    e.scale = ScaleFactor { num: 2, den: 1 };
    let p = r.draw(&mut reg, &e).unwrap().painted.unwrap();
    assert_eq!(p.logical, Extent::new(400, 300));
    assert_eq!(p.framebuffer_extent, Extent::new(800, 600));
}

#[test]
fn selects_best_ranked_device_and_first_family() {
    let devices = vec![
        device(DeviceClass::Cpu, true, vec![family(true, true)]),
        device(DeviceClass::IntegratedGpu, true, vec![family(false, true), family(true, true)]),
        device(DeviceClass::DiscreteGpu, false, vec![family(true, true)]),
        device(DeviceClass::DiscreteGpu, true, vec![family(true, false), family(true, true)]),
        device(DeviceClass::VirtualGpu, true, vec![family(true, true)]),
    ];
    // the discrete device without the swapchain extension is skipped; the
    // remaining discrete one wins, with its first graphics+present family
    assert_eq!(select_device(&devices), Some((3, 1)));
}

#[test]
fn equally_ranked_devices_pick_the_first() {
    let devices = vec![
        device(DeviceClass::IntegratedGpu, true, vec![family(true, true)]),
        device(DeviceClass::DiscreteGpu, true, vec![family(true, true)]),
        device(DeviceClass::DiscreteGpu, true, vec![family(true, true)]),
    ];
    assert_eq!(select_device(&devices), Some((1, 0)));
}

#[test]
fn no_eligible_device_is_fatal() {
    let devices = vec![
        device(DeviceClass::DiscreteGpu, false, vec![family(true, true)]),
        device(DeviceClass::DiscreteGpu, true, vec![family(true, false), family(false, true)]),
    ];
    assert_eq!(select_device(&devices), None);
    let mut slot = QueueSlot::new();
    let r = Renderer::for_window(
        &mut slot,
        &devices,
        1,
        Extent::new(10, 10),
        ImageFormat::B8g8r8a8Unorm,
        &vec![AlphaMode::Opaque],
    );
    assert!(matches!(r, Err(RenderError::NoSuitableDevice)));
}

#[test]
fn shared_queue_is_created_once_and_memoized() {
    let mut slot = QueueSlot::new();
    let h1 = slot.get_or_create(&one_device()).unwrap();
    // later calls return the memoized handle without re-probing hardware,
    // even against a different device list
    let h2 = slot.get_or_create(&Vec::new()).unwrap();
    assert_eq!(h1, h2);
    assert_eq!(h1.device_index, 0);
    assert_eq!(h1.queue_family, 0);
}

#[test]
fn composite_alpha_prefers_transparency() {
    assert_eq!(
        choose_alpha(&vec![AlphaMode::Opaque, AlphaMode::PreMultiplied, AlphaMode::PostMultiplied]),
        Some(AlphaMode::PostMultiplied)
    );
    assert_eq!(
        choose_alpha(&vec![AlphaMode::Opaque, AlphaMode::PreMultiplied]),
        Some(AlphaMode::PreMultiplied)
    );
    // equally ranked modes: the first reported one wins
    assert_eq!(choose_alpha(&vec![AlphaMode::Opaque, AlphaMode::Inherit]), Some(AlphaMode::Opaque));
    assert_eq!(choose_alpha(&vec![AlphaMode::Opaque]), Some(AlphaMode::Opaque));
    assert_eq!(choose_alpha(&Vec::new()), None);
}

#[test]
fn surface_color_type_matches_swapchain_format() {
    assert_eq!(
        surface_color_type(ImageFormat::B8g8r8a8Unorm),
        Some(SurfaceColorType::Bgra8888)
    );
    assert_eq!(surface_color_type(ImageFormat::R8g8b8a8Unorm), None);
    assert_eq!(surface_color_type(ImageFormat::Other), None);
}

#[test]
fn framebuffers_always_match_swapchain_extent() {
    // resizes interleaved with draws: whenever a draw paints, the bound
    // framebuffer has the swapchain's current extent
    let mut r = new_renderer(1, Extent::new(320, 200), ImageFormat::B8g8r8a8Unorm);
    let mut reg = Registry::new();
    let sizes = [(320, 200), (640, 400), (640, 400), (1024, 768), (3, 1)];
    for (w, h) in sizes {
        let result = r.draw(&mut reg, &env(Extent::new(w, h), ready(0))).unwrap();
        let p = result.painted.unwrap();
        assert_eq!(p.framebuffer_extent, r.extent);
        assert!(r.framebuffers.iter().all(|e| *e == r.extent));
        r.resize(Extent::new(w, h));
    }
}

#[test]
fn logical_size_handles_extremes() {
    // the identity scale is exact even at the largest extent
    assert_eq!(logical_len(u32::MAX, &ScaleFactor::identity()), u32::MAX);
    // a large scale ratio rounds to the nearest logical unit
    let s = ScaleFactor { num: 65536, den: 1 };
    assert_eq!(logical_len(98304, &s), 2);
    assert_eq!(logical_len(0, &s), 0);
}

#[test]
fn removing_an_unknown_window_is_a_no_op() {
    let mut reg = Registry::new();
    reg.remove(42);
    assert!(!reg.contains(42));

    let mut r = new_renderer(5, Extent::new(64, 64), ImageFormat::B8g8r8a8Unorm);
    r.draw(&mut reg, &env(Extent::new(64, 64), ready(0))).unwrap();
    reg.remove(42);
    // the registered context survives the removal of an unknown identity
    assert!(reg.contains(5));
}
