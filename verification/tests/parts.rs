use skia_wgpu_surface::backend::{avoided_backends, Backend, Platform, WgpuBackend};
use skia_wgpu_surface::config::{
    choose_swapchain_format, initial_configuration, PhysicalSize, PresentMode,
    SurfaceConfiguration, TextureFormat,
};
use skia_wgpu_surface::error::{AcquireError, SurfaceError};
use skia_wgpu_surface::overlay::{
    can_offer_dump, offer_dump, DumpCounter, DumpLayout, OverlayDescriptor, DUMPED_FRAME,
};
use skia_wgpu_surface::perf::{switched_on, Damage, PerfOutcome, UiPerf};

const BACKENDS: [WgpuBackend; 6] = [
    WgpuBackend::Noop,
    WgpuBackend::Vulkan,
    WgpuBackend::Metal,
    WgpuBackend::Dx12,
    WgpuBackend::Gl,
    WgpuBackend::BrowserWebGpu,
];

const PLATFORMS: [Platform; 4] =
    [Platform::Apple, Platform::Windows, Platform::Unix, Platform::Other];

fn size(width: u32, height: u32) -> PhysicalSize {
    PhysicalSize { width, height }
}

#[test]
fn each_platform_has_its_backend() {
    let vulkan = Backend::try_from(WgpuBackend::Vulkan, Platform::Unix);
    assert_eq!(vulkan, Ok(Backend::Vulkan));
    let metal = Backend::try_from(WgpuBackend::Metal, Platform::Apple);
    assert_eq!(metal, Ok(Backend::Metal));
    let dx12 = Backend::try_from(WgpuBackend::Dx12, Platform::Windows);
    assert_eq!(dx12, Ok(Backend::Dx12));
    let mut usable = 0;
    for platform in PLATFORMS {
        for backend in BACKENDS {
            usable += Backend::try_from(backend, platform).is_ok() as u32;
        }
    }
    assert_eq!(usable, 3);
}

#[test]
fn unusable_backends_are_named() {
    for platform in PLATFORMS {
        let noop = Backend::try_from(WgpuBackend::Noop, platform).unwrap_err();
        assert_eq!(noop.message(), "Cannot use WGPU Noop backend with Skia");
    }
    let message = |backend: WgpuBackend, platform: Platform| {
        Backend::try_from(backend, platform).unwrap_err().message()
    };
    let prefix = "Unsupported WGPU backend for use with Skia: ";
    assert_eq!(message(WgpuBackend::Gl, Platform::Unix), format!("{prefix}gl"));
    assert_eq!(message(WgpuBackend::Metal, Platform::Unix), format!("{prefix}metal"));
    assert_eq!(message(WgpuBackend::Dx12, Platform::Unix), format!("{prefix}dx12"));
    assert_eq!(message(WgpuBackend::Vulkan, Platform::Windows), format!("{prefix}vulkan"));
    assert_eq!(message(WgpuBackend::BrowserWebGpu, Platform::Other), format!("{prefix}webgpu"));
}

#[test]
fn backend_names_are_those_of_wgpu() {
    let outside = [
        wgpu::Backend::Vulkan,
        wgpu::Backend::Metal,
        wgpu::Backend::Dx12,
        wgpu::Backend::Gl,
        wgpu::Backend::BrowserWebGpu,
    ];
    for (backend, outside) in BACKENDS[1..].iter().zip(outside) {
        let message = SurfaceError::UnsupportedBackend(*backend).message();
        assert_eq!(message, format!("Unsupported WGPU backend for use with Skia: {outside}"));
    }
}

#[test]
fn avoided_backends_are_sets_of_wgpu() {
    let gl = wgpu::Backends::GL;
    let gl_and_vulkan = wgpu::Backends::GL.union(wgpu::Backends::VULKAN);
    assert_eq!(avoided_backends(Platform::Unix), gl.bits());
    assert_eq!(avoided_backends(Platform::Apple), gl.bits());
    assert_eq!(avoided_backends(Platform::Other), gl.bits());
    assert_eq!(avoided_backends(Platform::Windows), gl_and_vulkan.bits());
    assert_eq!(avoided_backends(Platform::Unix), 16);
    assert_eq!(avoided_backends(Platform::Windows), 18);
}

#[test]
fn usable_backend_is_not_avoided() {
    let pairs = [
        (WgpuBackend::Vulkan, wgpu::Backends::VULKAN),
        (WgpuBackend::Metal, wgpu::Backends::METAL),
        (WgpuBackend::Dx12, wgpu::Backends::DX12),
        (WgpuBackend::Gl, wgpu::Backends::GL),
    ];
    for platform in PLATFORMS {
        let avoided = wgpu::Backends::from_bits(avoided_backends(platform)).unwrap();
        for (backend, flag) in pairs {
            if Backend::try_from(backend, platform).is_ok() {
                assert!(!avoided.contains(flag));
            }
        }
        assert!(avoided.contains(wgpu::Backends::GL));
    }
}

#[test]
fn acquire_errors_are_worded_as_in_wgpu() {
    let pairs = [
        (AcquireError::Timeout, wgpu::SurfaceError::Timeout),
        (AcquireError::Outdated, wgpu::SurfaceError::Outdated),
        (AcquireError::Lost, wgpu::SurfaceError::Lost),
        (AcquireError::OutOfMemory, wgpu::SurfaceError::OutOfMemory),
        (AcquireError::Other, wgpu::SurfaceError::Other),
    ];
    for (error, outside) in pairs {
        assert_eq!(
            SurfaceError::AcquireAfterTimeout(error).message(),
            format!("Error obtaining current surface texture after timeout: {outside}")
        );
        assert_eq!(
            SurfaceError::AcquireAfterError(error).message(),
            format!("Error obtaining current surface texture after initial error: {outside}")
        );
    }
    assert_eq!(
        SurfaceError::AcquireAfterError(AcquireError::Lost).message(),
        "Error obtaining current surface texture after initial error: \
         The swap chain has been lost and needs to be recreated"
    );
}

#[test]
fn other_errors_have_fixed_messages() {
    assert_eq!(SurfaceError::SkiaContext.message(), "Failed to create Skia context from WGPU");
    assert_eq!(SurfaceError::WrapOverlay.message(), "Failed to wrap UI overlay texture for Skia");
    assert_eq!(SurfaceError::WrapFrame.message(), "Failed to create Skia surface from WGPU");
    let format = format!("{:#?}", wgpu::TextureFormat::Rgba16Float);
    assert_eq!(
        SurfaceError::UnsupportedFormat(format).message(),
        "Unsupported surface format Rgba16Float"
    );
}

#[test]
fn first_preferred_format_is_chosen() {
    let srgb = TextureFormat::Bgra8UnormSrgb;
    let bgra = TextureFormat::Bgra8Unorm;
    let rgba = TextureFormat::Rgba8Unorm;
    let other = TextureFormat::Other(String::from("Rgba16Float"));
    let chosen = |formats: &[&TextureFormat]| {
        let formats: Vec<TextureFormat> = formats.iter().map(|format| (*format).clone()).collect();
        choose_swapchain_format(&formats)
    };
    assert_eq!(chosen(&[&srgb, &bgra, &rgba]), 1);
    assert_eq!(chosen(&[&other, &srgb, &rgba, &bgra]), 2);
    assert_eq!(chosen(&[&rgba]), 0);
    assert_eq!(chosen(&[&srgb, &other]), 0);
    assert_eq!(chosen(&[&other, &srgb]), 0);
}

#[test]
fn initial_configuration_replaces_format_and_mode() {
    let proposed = SurfaceConfiguration {
        format: TextureFormat::Bgra8UnormSrgb,
        width: 640,
        height: 480,
        present_mode: PresentMode::Mailbox,
    };
    let formats = vec![TextureFormat::Bgra8UnormSrgb, TextureFormat::Bgra8Unorm];
    let config = initial_configuration(proposed, &formats);
    assert_eq!(
        config,
        SurfaceConfiguration {
            format: TextureFormat::Bgra8Unorm,
            width: 640,
            height: 480,
            present_mode: PresentMode::AutoVsync,
        }
    );
}

#[test]
fn overlay_covers_the_window() {
    let overlay = OverlayDescriptor::new(size(800, 600), TextureFormat::Rgba8Unorm);
    assert_eq!((overlay.width, overlay.height), (800, 600));
    assert_eq!(overlay.format, TextureFormat::Rgba8Unorm);
    let usage = wgpu::TextureUsages::RENDER_ATTACHMENT
        | wgpu::TextureUsages::TEXTURE_BINDING
        | wgpu::TextureUsages::COPY_SRC;
    assert_eq!(overlay.usage, usage.bits());
    assert_eq!(overlay.usage, 21);
}

#[test]
fn overlay_is_never_empty() {
    let overlay = OverlayDescriptor::new(size(0, 600), TextureFormat::Rgba8Unorm);
    assert_eq!((overlay.width, overlay.height), (1, 600));
    let overlay = OverlayDescriptor::new(size(0, 0), TextureFormat::Rgba8Unorm);
    assert_eq!((overlay.width, overlay.height), (1, 1));
}

#[test]
fn overlay_is_dumped_once() {
    let mut counter = DumpCounter { offered: 0 };
    let mut dumped = vec![];
    for frame in 0..100u32 {
        if counter.offer() {
            dumped.push(frame);
        }
    }
    assert_eq!(dumped, vec![30]);
    assert_eq!(DUMPED_FRAME, 30);
    let mut counter = DumpCounter { offered: u32::MAX };
    assert!(!counter.offer());
    assert_eq!(counter.offered, 0);
}

#[test]
fn dump_is_offered_where_it_is_switched_on() {
    let mut counter = DumpCounter { offered: 30 };
    assert_eq!(offer_dump(Some("0"), &mut counter, Some(size(100, 10))), None);
    assert_eq!(offer_dump(None, &mut counter, Some(size(100, 10))), None);
    assert_eq!(counter.offered, 30);
    let layout = offer_dump(Some("1"), &mut counter, Some(size(100, 10)));
    assert_eq!(layout, Some(DumpLayout { bytes_per_row: 512, buffer_size: 5120 }));
    assert_eq!(counter.offered, 31);
    assert_eq!(offer_dump(Some("1"), &mut counter, Some(size(100, 10))), None);
    let mut counter = DumpCounter { offered: 30 };
    assert_eq!(offer_dump(Some("1"), &mut counter, None), None);
    assert_eq!(counter.offered, 31);
}

#[test]
fn dump_has_to_fit_only_where_it_is_due() {
    let large = Some(size(u32::MAX, 1));
    let due = DumpCounter { offered: 30 };
    assert!(!can_offer_dump(Some("1"), &due, large));
    assert!(can_offer_dump(Some("0"), &due, large));
    assert!(can_offer_dump(Some("1"), &due, None));
    assert!(can_offer_dump(Some("1"), &due, Some(size(100, 10))));
    assert!(can_offer_dump(Some("1"), &DumpCounter { offered: 29 }, large));
}

#[test]
fn formats_are_told_apart_by_their_text() {
    let of = |format: wgpu::TextureFormat| TextureFormat::from_text(format!("{format:#?}"));
    assert_eq!(of(wgpu::TextureFormat::Rgba8Unorm), TextureFormat::Rgba8Unorm);
    assert_eq!(of(wgpu::TextureFormat::Rgba8UnormSrgb), TextureFormat::Rgba8UnormSrgb);
    assert_eq!(of(wgpu::TextureFormat::Bgra8Unorm), TextureFormat::Bgra8Unorm);
    assert_eq!(of(wgpu::TextureFormat::Bgra8UnormSrgb), TextureFormat::Bgra8UnormSrgb);
    let other = TextureFormat::Other(String::from("Rgb10a2Unorm"));
    assert_eq!(of(wgpu::TextureFormat::Rgb10a2Unorm), other);
}

#[test]
fn dump_rows_are_padded() {
    let layout = DumpLayout::new(size(100, 10));
    assert_eq!(layout.bytes_per_row, 512);
    assert_eq!(layout.buffer_size, 5120);
    assert_eq!(DumpLayout::new(size(64, 3)).bytes_per_row, 256);
    assert_eq!(DumpLayout::new(size(65, 3)).bytes_per_row, 512);
    assert_eq!(DumpLayout::new(size(0, 3)), DumpLayout { bytes_per_row: 0, buffer_size: 0 });
    for width in 0..1000u32 {
        let pitch = DumpLayout::new(size(width, 1)).bytes_per_row;
        assert_eq!(pitch, (width * 4).div_ceil(256) * 256);
    }
}

#[test]
fn dumps_that_are_too_large_are_told_apart() {
    assert!(DumpLayout::can_hold(size(16384, 16384)));
    assert!(DumpLayout::can_hold(size(16384, 65535)));
    assert!(!DumpLayout::can_hold(size(16384, 65536)));
    assert!(!DumpLayout::can_hold(size(u32::MAX, 0)));
    assert!(!DumpLayout::can_hold(size(0x3fff_ffff, 1)));
    assert!(DumpLayout::can_hold(size(0x3fff_ffc0, 1)));
    assert_eq!(DumpLayout::new(size(0x3fff_ffc0, 1)).bytes_per_row, 0xffff_ff00);
}

#[test]
fn switches_are_on_at_one_alone() {
    assert!(switched_on(Some("1")));
    assert!(!switched_on(Some("0")));
    assert!(!switched_on(Some("11")));
    assert!(!switched_on(Some(" 1")));
    assert!(!switched_on(Some("")));
    assert!(!switched_on(Some("true")));
    assert!(!switched_on(None));
    assert!(UiPerf::new_if_enabled(Some("0")).is_none());
    assert!(UiPerf::new_if_enabled(None).is_none());
    let zero = UiPerf { frames: 0, full_repaints: 0, draw_us_sum: 0, draw_us_max: 0 };
    assert_eq!(UiPerf::new_if_enabled(Some("1")), Some(zero));
}

#[test]
fn counters_are_reported_and_start_anew() {
    let mut perf = UiPerf::new_if_enabled(Some("1")).unwrap();
    let first = perf.record(500, Damage::Everything, 0);
    assert_eq!(first, PerfOutcome { area: Damage::Everything, report: None });
    perf.record(200, Damage::Region, 0);
    let report = UiPerf { frames: 3, full_repaints: 1, draw_us_sum: 1000, draw_us_max: 500 };
    let third = perf.record(300, Damage::Region, 1);
    assert_eq!(third, PerfOutcome { area: Damage::Region, report: Some(report) });
    assert_eq!(Some(perf), UiPerf::new_if_enabled(Some("1")));
    let fourth = perf.record(7, Damage::Everything, 5);
    let report = UiPerf { frames: 1, full_repaints: 1, draw_us_sum: 7, draw_us_max: 7 };
    assert_eq!(fourth.report, Some(report));
}

#[test]
fn counters_know_their_limits() {
    let full = UiPerf { frames: u32::MAX, full_repaints: 0, draw_us_sum: 9, draw_us_max: 9 };
    assert!(!full.can_record(0));
    let slow = UiPerf { frames: 2, full_repaints: 0, draw_us_sum: u64::MAX - 5, draw_us_max: u64::MAX - 5 };
    assert!(slow.can_record(5));
    assert!(!slow.can_record(6));
}
