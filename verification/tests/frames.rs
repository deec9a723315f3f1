use skia_wgpu_surface::backend::{Backend, Platform, WgpuBackend};
use skia_wgpu_surface::config::{
    PhysicalSize, PresentMode, SurfaceConfiguration, TextureFormat,
};
use skia_wgpu_surface::error::{AcquireError, SurfaceError};
use skia_wgpu_surface::overlay::OverlayDescriptor;
use skia_wgpu_surface::perf::{Damage, UiPerf};
use skia_wgpu_surface::render::{RenderEvent, RenderStep, ResizeStep, RetryCause};
use skia_wgpu_surface::surface::{set_up, ImportStep, WGPUSurface, WGPUTexture};

type Surface = WGPUSurface<u64, &'static str, &'static str, u8>;
type Step = RenderStep<Vec<u64>>;
type Event = RenderEvent<u64, &'static str>;

const WINDOW: PhysicalSize = PhysicalSize { width: 640, height: 480 };
const LARGER: PhysicalSize = PhysicalSize { width: 800, height: 600 };

fn config(format: TextureFormat) -> SurfaceConfiguration {
    SurfaceConfiguration {
        format,
        width: WINDOW.width,
        height: WINDOW.height,
        present_mode: PresentMode::AutoVsync,
    }
}

fn make(
    format: TextureFormat,
    backend: WgpuBackend,
    has_context: bool,
    perf: Option<&str>,
) -> Result<Surface, SurfaceError> {
    let formats = vec![format.clone()];
    WGPUSurface::new(config(format), &formats, backend, Platform::Unix, has_context, perf)
}

fn surface(perf: Option<&str>) -> Surface {
    make(TextureFormat::Bgra8Unorm, WgpuBackend::Vulkan, true, perf).unwrap()
}

fn painted(draw_us: u64) -> Event {
    RenderEvent::Painted { draw_us, damage: Damage::Region, elapsed_secs: 0 }
}

/// Answers every step well, and gives the names of the steps and the age that
/// was reported.
fn run(surface: &mut Surface, size: PhysicalSize) -> (Vec<&'static str>, u8) {
    let mut step: Step = RenderStep::Acquire;
    let mut names = vec![];
    let mut reported = 255;
    loop {
        let (name, event) = match &step {
            RenderStep::Acquire => ("acquire", RenderEvent::Acquired),
            RenderStep::Reconfigure(_) => ("reconfigure", RenderEvent::Reconfigured),
            RenderStep::Reacquire(_) => ("reacquire", RenderEvent::Acquired),
            RenderStep::CreateOverlay(_) => {
                ("create", RenderEvent::OverlayCreated { texture: 9, view: "view" })
            }
            RenderStep::TransitionOverlay => ("target", RenderEvent::Transitioned),
            RenderStep::WrapOverlay => ("wrap overlay", RenderEvent::Wrapped),
            RenderStep::WrapFrame => ("wrap frame", RenderEvent::Wrapped),
            RenderStep::Paint { age, .. } => {
                reported = *age;
                ("paint", painted(10))
            }
            RenderStep::Log { .. } => ("log", RenderEvent::Logged),
            RenderStep::Transition { .. } => ("transition", RenderEvent::Transitioned),
            RenderStep::Submit { .. } => ("submit", RenderEvent::Submitted),
            RenderStep::OfferDump => ("dump", RenderEvent::DumpOffered),
            RenderStep::Compose => ("compose", RenderEvent::Composed),
            RenderStep::Announce => ("announce", RenderEvent::Announced),
            RenderStep::Present => ("present", RenderEvent::Presented),
            RenderStep::Done => return (names, reported),
        };
        names.push(name);
        step = surface.render(size, &step, event).unwrap();
    }
}

/// Performs a change of size, and gives the steps that it took.
fn resize(surface: &mut Surface, size: PhysicalSize) -> Vec<ResizeStep> {
    let mut steps = vec![ResizeStep::Begin];
    while steps.last() != Some(&ResizeStep::Done) {
        let next = surface.resize_event(size, steps.last().unwrap());
        steps.push(next);
    }
    steps
}

/// Goes on with a frame until the UI is to be painted.
fn paint_step(surface: &mut Surface) -> Step {
    let mut step: Step = RenderStep::Acquire;
    loop {
        let event = match &step {
            RenderStep::Acquire => RenderEvent::Acquired,
            RenderStep::CreateOverlay(_) => {
                RenderEvent::OverlayCreated { texture: 9, view: "view" }
            }
            RenderStep::TransitionOverlay => RenderEvent::Transitioned,
            RenderStep::WrapOverlay | RenderStep::WrapFrame => RenderEvent::Wrapped,
            _ => return step,
        };
        step = surface.render(WINDOW, &step, event).unwrap();
    }
}

const DIRECT: [&str; 6] = ["acquire", "wrap frame", "paint", "submit", "announce", "present"];
const INVERTED: [&str; 9] = [
    "acquire", "target", "wrap overlay", "paint", "submit", "dump", "compose", "announce",
    "present",
];
const FIRST_INVERTED: [&str; 10] = [
    "acquire", "create", "target", "wrap overlay", "paint", "submit", "dump", "compose",
    "announce", "present",
];

#[test]
fn surface_needs_a_context() {
    let refused = make(TextureFormat::Bgra8Unorm, WgpuBackend::Vulkan, false, None);
    assert_eq!(refused.err(), Some(SurfaceError::SkiaContext));
}

#[test]
fn surface_needs_a_backend_first() {
    for has_context in [false, true] {
        let refused = make(TextureFormat::Bgra8Unorm, WgpuBackend::Gl, has_context, None);
        assert_eq!(refused.err(), Some(SurfaceError::UnsupportedBackend(WgpuBackend::Gl)));
        let refused = make(TextureFormat::Bgra8Unorm, WgpuBackend::Noop, has_context, None);
        assert_eq!(refused.err(), Some(SurfaceError::NoopBackend));
    }
}

#[test]
fn surface_is_set_up_from_what_the_window_offers() {
    let formats = vec![TextureFormat::Bgra8UnormSrgb, TextureFormat::Rgba8Unorm];
    let mut proposed = config(TextureFormat::Bgra8UnormSrgb);
    proposed.present_mode = PresentMode::Mailbox;
    let (chosen, backend) =
        set_up(proposed.clone(), &formats, WgpuBackend::Dx12, Platform::Windows).unwrap();
    assert_eq!(chosen, config(TextureFormat::Rgba8Unorm));
    assert_eq!(backend, Backend::Dx12);
    let refused = set_up(proposed.clone(), &formats, WgpuBackend::Metal, Platform::Windows);
    assert_eq!(refused, Err(SurfaceError::UnsupportedBackend(WgpuBackend::Metal)));
    let surface: Surface = WGPUSurface::new(
        proposed,
        &formats,
        WgpuBackend::Dx12,
        Platform::Windows,
        true,
        None,
    )
    .unwrap();
    assert_eq!(surface.configuration(), &chosen);
    assert_eq!(surface.backend(), Backend::Dx12);
}

#[test]
fn surface_starts_out_empty() {
    let surface = surface(None);
    assert_eq!(surface.name(), "wgpu");
    assert_eq!(surface.configuration(), &config(TextureFormat::Bgra8Unorm));
    assert_eq!(surface.backend(), Backend::Vulkan);
    assert_eq!(surface.frames_since_configure(), 0);
    assert!(surface.ui_perf().is_none());
    assert!(surface.inverted_ui().is_none());
    assert!(surface.compose_hook().is_none());
    assert!(surface.cached_image(&1).is_none());
}

#[test]
fn direct_frames_repaint_everything() {
    let mut surface = surface(None);
    for _ in 0..5 {
        let (names, age) = run(&mut surface, WINDOW);
        assert_eq!(names, DIRECT);
        assert_eq!(age, 0);
    }
    assert_eq!(surface.frames_since_configure(), 5);
    assert!(surface.inverted_ui().is_none());
}

#[test]
fn inverted_frames_repaint_everything_once() {
    let mut surface = surface(None);
    run(&mut surface, WINDOW);
    surface.set_compose_hook(Some(1));
    let (names, age) = run(&mut surface, WINDOW);
    assert_eq!(names, FIRST_INVERTED);
    assert_eq!(age, 0);
    for _ in 0..3 {
        let (names, age) = run(&mut surface, WINDOW);
        assert_eq!(names, INVERTED);
        assert_eq!(age, 1);
    }
    surface.set_compose_hook(Some(2));
    assert_eq!(surface.compose_hook(), Some(&2));
    assert_eq!(run(&mut surface, WINDOW).1, 1);
}

#[test]
fn overlay_goes_with_the_hook() {
    let mut surface = surface(None);
    surface.set_compose_hook(Some(1));
    run(&mut surface, WINDOW);
    assert!(surface.inverted_ui().is_some());
    surface.set_compose_hook(None);
    assert!(surface.inverted_ui().is_none());
    assert_eq!(run(&mut surface, WINDOW).0, DIRECT);
    surface.set_compose_hook(Some(1));
    assert_eq!(run(&mut surface, WINDOW), (FIRST_INVERTED.to_vec(), 0));
}

#[test]
fn overlay_follows_the_size() {
    let mut surface = surface(None);
    surface.set_compose_hook(Some(1));
    run(&mut surface, WINDOW);
    assert_eq!(surface.inverted_ui().unwrap().size, WINDOW);
    assert_eq!(run(&mut surface, LARGER), (FIRST_INVERTED.to_vec(), 0));
    assert_eq!(surface.inverted_ui().unwrap().size, LARGER);
    assert_eq!(run(&mut surface, LARGER), (INVERTED.to_vec(), 1));
}

#[test]
fn overlay_has_the_format_of_the_swapchain() {
    let mut surface = surface(None);
    surface.set_compose_hook(Some(1));
    let next = surface.render(WINDOW, &RenderStep::Acquire, RenderEvent::Acquired).unwrap();
    match next {
        RenderStep::CreateOverlay(descriptor) => {
            assert_eq!(descriptor, OverlayDescriptor::new(WINDOW, TextureFormat::Bgra8Unorm));
        }
        _ => panic!("the overlay is missing"),
    }
}

#[test]
fn hook_sees_the_overlay() {
    let mut surface = surface(None);
    surface.set_compose_hook(Some(1));
    assert!(surface.compose_ctx().ui.is_none());
    run(&mut surface, WINDOW);
    let ctx = surface.compose_ctx();
    assert_eq!(ctx.ui, Some(&"view"));
    assert_eq!((ctx.width, ctx.height), (640, 480));
    assert_eq!(ctx.format, &TextureFormat::Bgra8Unorm);
}

#[test]
fn timeout_is_retried_once() {
    let mut surface = surface(None);
    run(&mut surface, WINDOW);
    let failed = RenderEvent::AcquireFailed(AcquireError::Timeout);
    let step = surface.render(WINDOW, &RenderStep::Acquire, failed).unwrap();
    assert!(matches!(step, RenderStep::Reacquire(RetryCause::Timeout)));
    assert_eq!(surface.frames_since_configure(), 1);
    let failed = RenderEvent::AcquireFailed(AcquireError::Outdated);
    let error = surface.render(WINDOW, &step, failed).unwrap_err();
    assert_eq!(error, SurfaceError::AcquireAfterTimeout(AcquireError::Outdated));
    let failed = RenderEvent::AcquireFailed(AcquireError::Timeout);
    let step = surface.render(WINDOW, &RenderStep::Acquire, failed).unwrap();
    let next = surface.render(WINDOW, &step, RenderEvent::Acquired).unwrap();
    assert!(matches!(next, RenderStep::WrapFrame));
}

#[test]
fn lost_swapchain_is_reconfigured_once() {
    let causes = [
        AcquireError::Outdated,
        AcquireError::Lost,
        AcquireError::OutOfMemory,
        AcquireError::Other,
    ];
    for cause in causes {
        let mut surface = surface(None);
        run(&mut surface, WINDOW);
        let failed = RenderEvent::AcquireFailed(cause);
        let step = surface.render(WINDOW, &RenderStep::Acquire, failed).unwrap();
        match &step {
            RenderStep::Reconfigure(unchanged) => {
                assert_eq!(unchanged, &config(TextureFormat::Bgra8Unorm));
            }
            _ => panic!("the swapchain is not configured"),
        }
        assert_eq!(surface.frames_since_configure(), 1);
        let step = surface.render(WINDOW, &step, RenderEvent::Reconfigured).unwrap();
        assert!(matches!(step, RenderStep::Reacquire(RetryCause::Reconfigured)));
        assert_eq!(surface.frames_since_configure(), 0);
        let failed = RenderEvent::AcquireFailed(AcquireError::Timeout);
        let error = surface.render(WINDOW, &step, failed).unwrap_err();
        assert_eq!(error, SurfaceError::AcquireAfterError(AcquireError::Timeout));
    }
}

#[test]
fn failed_wrap_leaves_the_overlay_fresh() {
    let mut surface = surface(None);
    surface.set_compose_hook(Some(1));
    let created = RenderEvent::OverlayCreated { texture: 9, view: "view" };
    let step = surface.render(WINDOW, &RenderStep::Acquire, RenderEvent::Acquired).unwrap();
    let step = surface.render(WINDOW, &step, created).unwrap();
    let step = surface.render(WINDOW, &step, RenderEvent::Transitioned).unwrap();
    let error = surface.render(WINDOW, &step, RenderEvent::WrapFailed).unwrap_err();
    assert_eq!(error, SurfaceError::WrapOverlay);
    assert!(surface.inverted_ui().unwrap().fresh);
    assert_eq!(run(&mut surface, WINDOW), (INVERTED.to_vec(), 0));
    assert!(!surface.inverted_ui().unwrap().fresh);
}

#[test]
fn failed_wrap_of_the_frame() {
    let mut surface = surface(None);
    let step = surface.render(WINDOW, &RenderStep::Acquire, RenderEvent::Acquired).unwrap();
    let error = surface.render(WINDOW, &step, RenderEvent::WrapFailed).unwrap_err();
    assert_eq!(error, SurfaceError::WrapFrame);
    assert_eq!(surface.frames_since_configure(), 0);
}

#[test]
fn same_size_is_ignored() {
    let mut surface = surface(None);
    surface.finish_import(4, Some("image"));
    run(&mut surface, WINDOW);
    assert_eq!(resize(&mut surface, WINDOW), vec![ResizeStep::Begin, ResizeStep::Done]);
    assert_eq!(surface.cached_image(&4), Some(&"image"));
    assert_eq!(surface.frames_since_configure(), 1);
}

#[test]
fn changed_size_is_configured_once() {
    let mut surface = surface(None);
    surface.finish_import(4, Some("image"));
    surface.import_wgpu_texture(WGPUTexture::WGPU28Texture(4));
    run(&mut surface, WINDOW);
    let expected = SurfaceConfiguration {
        format: TextureFormat::Bgra8Unorm,
        width: 800,
        height: 600,
        present_mode: PresentMode::AutoVsync,
    };
    let flush = surface.resize_event(LARGER, &ResizeStep::Begin);
    assert_eq!(flush, ResizeStep::Flush);
    assert_eq!(surface.configuration(), &config(TextureFormat::Bgra8Unorm));
    assert!(surface.cached_image(&4).is_some());
    let configure = surface.resize_event(LARGER, &flush);
    assert_eq!(configure, ResizeStep::Configure(expected.clone()));
    assert_eq!(surface.configuration(), &expected);
    assert_eq!(surface.resize_event(LARGER, &configure), ResizeStep::Done);
    assert!(surface.cached_image(&4).is_none());
    assert_eq!(surface.frames_since_configure(), 0);
    assert_eq!(resize(&mut surface, LARGER), vec![ResizeStep::Begin, ResizeStep::Done]);
    let narrower = PhysicalSize { width: 799, height: 600 };
    assert_eq!(resize(&mut surface, narrower).len(), 4);
    assert_eq!(surface.configuration().width, 799);
    let lower = PhysicalSize { width: 799, height: 599 };
    assert_eq!(resize(&mut surface, lower).len(), 4);
    assert_eq!(surface.configuration().height, 599);
}

#[test]
fn depth_of_the_swapchain() {
    let known = [
        TextureFormat::Rgba8Unorm,
        TextureFormat::Rgba8UnormSrgb,
        TextureFormat::Bgra8Unorm,
        TextureFormat::Bgra8UnormSrgb,
    ];
    for format in known {
        let surface = make(format, WgpuBackend::Vulkan, true, None).unwrap();
        assert_eq!(surface.bits_per_pixel(), Ok(32));
    }
    let text = format!("{:#?}", wgpu::TextureFormat::Rgba16Float);
    let surface = make(TextureFormat::Other(text), WgpuBackend::Vulkan, true, None).unwrap();
    let error = surface.bits_per_pixel().unwrap_err();
    assert_eq!(error.message(), "Unsupported surface format Rgba16Float");
}

#[test]
fn image_is_made_once_at_each_size() {
    let mut surface = surface(None);
    let first = surface.import_wgpu_texture(WGPUTexture::WGPU28Texture(4));
    assert_eq!(first, ImportStep::Import);
    surface.finish_import(4, Some("image"));
    let second = surface.import_wgpu_texture(WGPUTexture::WGPU28Texture(4));
    assert_eq!(second, ImportStep::Cached);
    assert_eq!(surface.cached_image(&4), Some(&"image"));
    let other = surface.import_wgpu_texture(WGPUTexture::WGPU28Texture(5));
    assert_eq!(other, ImportStep::Import);
    surface.finish_import(5, None);
    assert!(surface.cached_image(&5).is_none());
    let again = surface.import_wgpu_texture(WGPUTexture::WGPU28Texture(5));
    assert_eq!(again, ImportStep::Import);
    resize(&mut surface, LARGER);
    let resized = surface.import_wgpu_texture(WGPUTexture::WGPU28Texture(4));
    assert_eq!(resized, ImportStep::Import);
}

#[test]
fn image_outlives_frames_and_hooks() {
    let mut surface = surface(None);
    surface.import_wgpu_texture(WGPUTexture::WGPU28Texture(4));
    surface.finish_import(4, Some("image"));
    run(&mut surface, WINDOW);
    surface.set_compose_hook(Some(1));
    run(&mut surface, WINDOW);
    surface.set_compose_hook(None);
    resize(&mut surface, WINDOW);
    surface.finish_import(5, Some("other"));
    run(&mut surface, WINDOW);
    assert_eq!(surface.cached_image(&4), Some(&"image"));
    let step = surface.import_wgpu_texture(WGPUTexture::WGPU28Texture(4));
    assert_eq!(step, ImportStep::Cached);
}

#[test]
fn hook_may_go_while_the_presentation_is_announced() {
    let mut surface = surface(None);
    surface.set_compose_hook(Some(1));
    let step = paint_step(&mut surface);
    let step = surface.render(WINDOW, &step, painted(1)).unwrap();
    let step = surface.render(WINDOW, &step, RenderEvent::Submitted).unwrap();
    let step = surface.render(WINDOW, &step, RenderEvent::DumpOffered).unwrap();
    let step = surface.render(WINDOW, &step, RenderEvent::Composed).unwrap();
    assert!(matches!(step, RenderStep::Announce));
    assert!(surface.can_set_compose_hook(true));
    surface.set_compose_hook(None);
    let step = surface.render(WINDOW, &step, RenderEvent::Announced).unwrap();
    let step = surface.render(WINDOW, &step, RenderEvent::Presented).unwrap();
    assert!(matches!(step, RenderStep::Done));
    assert!(surface.inverted_ui().is_none());
    surface.set_compose_hook(Some(1));
    assert_eq!(run(&mut surface, WINDOW), (FIRST_INVERTED.to_vec(), 0));
}

#[test]
fn hook_is_held_while_it_is_needed() {
    let mut surface = surface(None);
    assert!(surface.can_set_compose_hook(true) && surface.can_set_compose_hook(false));
    let step = paint_step(&mut surface);
    assert!(surface.can_set_compose_hook(true) && surface.can_set_compose_hook(false));
    let step = surface.render(WINDOW, &step, painted(1)).unwrap();
    let step = surface.render(WINDOW, &step, RenderEvent::Submitted).unwrap();
    let step = surface.render(WINDOW, &step, RenderEvent::Announced).unwrap();
    surface.render(WINDOW, &step, RenderEvent::Presented).unwrap();

    surface.set_compose_hook(Some(1));
    let step = paint_step(&mut surface);
    assert!(!surface.can_set_compose_hook(true) && surface.can_set_compose_hook(false));
    let step = surface.render(WINDOW, &step, painted(1)).unwrap();
    let step = surface.render(WINDOW, &step, RenderEvent::Submitted).unwrap();
    let step = surface.render(WINDOW, &step, RenderEvent::DumpOffered).unwrap();
    assert!(matches!(step, RenderStep::Compose));
    assert!(!surface.can_set_compose_hook(true) && !surface.can_set_compose_hook(false));
    surface.abandon_frame();
    assert!(surface.can_set_compose_hook(true) && surface.can_set_compose_hook(false));
    assert_eq!(run(&mut surface, WINDOW), (INVERTED.to_vec(), 1));
}

#[test]
fn failed_frame_keeps_waiting_textures() {
    let mut surface = surface(None);
    surface.import_wgpu_texture(WGPUTexture::WGPU28Texture(6));
    let step = surface.render(WINDOW, &RenderStep::Acquire, RenderEvent::Acquired).unwrap();
    surface.render(WINDOW, &step, RenderEvent::WrapFailed).unwrap_err();
    assert!(surface.can_set_compose_hook(true));
    let step = paint_step(&mut surface);
    match surface.render(WINDOW, &step, painted(1)).unwrap() {
        RenderStep::Transition { textures, .. } => assert_eq!(textures, vec![6]),
        _ => panic!("nothing is made ready"),
    }
}

#[test]
fn shown_textures_are_submitted_in_order() {
    let mut surface = surface(None);
    let unsupported = surface.import_wgpu_texture(WGPUTexture::WGPU27Texture);
    assert_eq!(unsupported, ImportStep::Unsupported);
    let step = paint_step(&mut surface);
    for texture in [3, 1, 3] {
        let import = surface.import_wgpu_texture(WGPUTexture::WGPU28Texture(texture));
        if import == ImportStep::Import {
            surface.finish_import(texture, Some("image"));
        }
    }
    let step = surface.render(WINDOW, &step, painted(1)).unwrap();
    match &step {
        RenderStep::Transition { textures, inverted } => {
            assert_eq!(textures, &vec![3, 1, 3]);
            assert!(!inverted);
        }
        _ => panic!("nothing is made ready"),
    }
    let step = surface.render(WINDOW, &step, RenderEvent::Transitioned).unwrap();
    assert!(matches!(step, RenderStep::Submit { inverted: false }));
    surface.abandon_frame();
    assert_eq!(run(&mut surface, WINDOW).0, DIRECT);
}

#[test]
fn frames_are_recorded_in_both_modes() {
    let mut surface = surface(Some("1"));
    let (names, _) = run(&mut surface, WINDOW);
    assert_eq!(
        names,
        ["acquire", "wrap frame", "paint", "log", "submit", "announce", "present"]
    );
    surface.set_compose_hook(Some(1));
    run(&mut surface, WINDOW);
    let expected = UiPerf { frames: 2, full_repaints: 0, draw_us_sum: 20, draw_us_max: 10 };
    assert_eq!(surface.ui_perf(), Some(expected));
    let step = paint_step(&mut surface);
    surface.import_wgpu_texture(WGPUTexture::WGPU28Texture(2));
    let event = RenderEvent::Painted { draw_us: 30, damage: Damage::Everything, elapsed_secs: 2 };
    let step = surface.render(WINDOW, &step, event).unwrap();
    match &step {
        RenderStep::Log { outcome, inverted } => {
            let report =
                UiPerf { frames: 3, full_repaints: 1, draw_us_sum: 50, draw_us_max: 30 };
            assert_eq!(outcome.report, Some(report));
            assert_eq!(outcome.area, Damage::Everything);
            assert!(inverted);
        }
        _ => panic!("nothing is logged"),
    }
    assert_eq!(surface.ui_perf().unwrap().frames, 0);
    let step = surface.render(WINDOW, &step, RenderEvent::Logged).unwrap();
    assert!(matches!(step, RenderStep::Transition { inverted: true, .. }));
}
