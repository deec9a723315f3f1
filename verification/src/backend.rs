//! Which of wgpu's backends Skia can share a device with.

use vstd::prelude::*;

use crate::error::SurfaceError;

verus! {

/// The backend that a wgpu adapter runs on.
#[derive(Clone, Copy, Debug, PartialEq, Eq, Structural)]
pub enum WgpuBackend {
    Noop,
    Vulkan,
    Metal,
    Dx12,
    Gl,
    BrowserWebGpu,
}

impl WgpuBackend {
    /// The name that wgpu gives the backend.
    pub open spec fn text(self) -> Seq<char> {
        match self {
            WgpuBackend::Noop => "noop"@,
            WgpuBackend::Vulkan => "vulkan"@,
            WgpuBackend::Metal => "metal"@,
            WgpuBackend::Dx12 => "dx12"@,
            WgpuBackend::Gl => "gl"@,
            WgpuBackend::BrowserWebGpu => "webgpu"@,
        }
    }

    /// The bit that stands for the backend in a set of backends.
    pub open spec fn flag(self) -> u32 {
        match self {
            WgpuBackend::Noop => 1,
            WgpuBackend::Vulkan => 2,
            WgpuBackend::Metal => 4,
            WgpuBackend::Dx12 => 8,
            WgpuBackend::Gl => 16,
            WgpuBackend::BrowserWebGpu => 32,
        }
    }
}

/// The platform that the surface runs on.
#[derive(Clone, Copy, Debug, PartialEq, Eq, Structural)]
pub enum Platform {
    /// A platform of Apple's.
    Apple,
    Windows,
    /// A Unix that is not Apple's.
    Unix,
    /// Anything else: Skia shares no device there.
    Other,
}

impl Platform {
    /// The API that Skia is built with on this platform.
    pub open spec fn skia_backend(self) -> Option<Backend> {
        match self {
            Platform::Apple => Some(Backend::Metal),
            Platform::Windows => Some(Backend::Dx12),
            Platform::Unix => Some(Backend::Vulkan),
            Platform::Other => None,
        }
    }
}

/// The native API through which Skia shares the device of an adapter.
#[derive(Clone, Copy, Debug, PartialEq, Eq, Structural)]
pub enum Backend {
    Metal,
    Dx12,
    Vulkan,
}

/// Calls the `Display` impl of `wgpu::Backend`, through `to_string`. The
/// contract claims that it writes the fixed name of the backend, the one that
/// [`WgpuBackend::text`] gives.
#[verifier::external_body]
pub(crate) fn backend_text(backend: WgpuBackend) -> (text: String)
    ensures
        text@ == backend.text(),
{
    let outside = match backend {
        WgpuBackend::Noop => wgpu::Backend::Noop,
        WgpuBackend::Vulkan => wgpu::Backend::Vulkan,
        WgpuBackend::Metal => wgpu::Backend::Metal,
        WgpuBackend::Dx12 => wgpu::Backend::Dx12,
        WgpuBackend::Gl => wgpu::Backend::Gl,
        WgpuBackend::BrowserWebGpu => wgpu::Backend::BrowserWebGpu,
    };
    outside.to_string()
}

/// Calls `bits` of `wgpu::Backends`, on the constant of one backend. The
/// contract claims that each constant is the one bit that
/// [`WgpuBackend::flag`] gives.
#[verifier::external_body]
fn backend_bits(backend: WgpuBackend) -> (bits: u32)
    ensures
        bits == backend.flag(),
{
    let set = match backend {
        WgpuBackend::Noop => wgpu::Backends::NOOP,
        WgpuBackend::Vulkan => wgpu::Backends::VULKAN,
        WgpuBackend::Metal => wgpu::Backends::METAL,
        WgpuBackend::Dx12 => wgpu::Backends::DX12,
        WgpuBackend::Gl => wgpu::Backends::GL,
        WgpuBackend::BrowserWebGpu => wgpu::Backends::BROWSER_WEBGPU,
    };
    set.bits()
}

/// Calls `union` of `wgpu::Backends`, on two sets given by their bits. The
/// contract claims that the union has the bits of either set.
#[verifier::external_body]
fn backends_union(left: u32, right: u32) -> (bits: u32)
    ensures
        bits == left | right,
{
    let left = wgpu::Backends::from_bits_retain(left);
    left.union(wgpu::Backends::from_bits_retain(right)).bits()
}

/// The backends that are kept out of the choice of an adapter on `platform`,
/// as the bits of a set: OpenGL everywhere, whose state Skia cannot save and
/// restore, and Vulkan on Windows.
pub open spec fn avoided_backends_bits(platform: Platform) -> u32 {
    WgpuBackend::Gl.flag() | if platform is Windows {
        WgpuBackend::Vulkan.flag()
    } else {
        0
    }
}

/// The backends that are kept out of the choice of an adapter on `platform`.
pub fn avoided_backends(platform: Platform) -> (bits: u32)
    ensures
        bits == avoided_backends_bits(platform),
{
    let gl: u32 = backend_bits(WgpuBackend::Gl);
    let rest: u32 = if platform == Platform::Windows {
        backend_bits(WgpuBackend::Vulkan)
    } else {
        0
    };
    backends_union(gl, rest)
}

impl Backend {
    /// The backend of wgpu on which this API is what runs underneath.
    pub open spec fn wgpu_backend(self) -> WgpuBackend {
        match self {
            Backend::Metal => WgpuBackend::Metal,
            Backend::Dx12 => WgpuBackend::Dx12,
            Backend::Vulkan => WgpuBackend::Vulkan,
        }
    }

    /// The API that Skia uses with an adapter on `wgpu_backend`: the adapter has
    /// to run on the one that Skia is built with on the platform.
    pub open spec fn for_adapter(wgpu_backend: WgpuBackend, platform: Platform) -> Result<
        Backend,
        SurfaceError,
    > {
        match platform.skia_backend() {
            Some(backend) if backend.wgpu_backend() == wgpu_backend => Ok(backend),
            _ => Err(
                if wgpu_backend is Noop {
                    SurfaceError::NoopBackend
                } else {
                    SurfaceError::UnsupportedBackend(wgpu_backend)
                },
            ),
        }
    }

    /// The API that Skia uses with an adapter on `wgpu_backend`.
    pub fn try_from(wgpu_backend: WgpuBackend, platform: Platform) -> (r: Result<
        Backend,
        SurfaceError,
    >)
        ensures
            r == Backend::for_adapter(wgpu_backend, platform),
    {
        match (wgpu_backend, platform) {
            (WgpuBackend::Noop, _) => Err(SurfaceError::NoopBackend),
            (WgpuBackend::Vulkan, Platform::Unix) => Ok(Backend::Vulkan),
            (WgpuBackend::Metal, Platform::Apple) => Ok(Backend::Metal),
            (WgpuBackend::Dx12, Platform::Windows) => Ok(Backend::Dx12),
            (other, _) => Err(SurfaceError::UnsupportedBackend(other)),
        }
    }
}

/// The one API that Skia can use on a platform is never among the backends that
/// are avoided there, while OpenGL, which it can use nowhere, always is.
pub proof fn law_usable_backend_is_not_avoided(platform: Platform)
    ensures
        platform.skia_backend() matches Some(backend) ==> avoided_backends_bits(platform)
            & backend.wgpu_backend().flag() == 0,
        avoided_backends_bits(platform) & WgpuBackend::Gl.flag() != 0,
{
    assert((16u32 | 0) & 4 == 0 && (16u32 | 2) & 8 == 0 && (16u32 | 0) & 2 == 0) by (bit_vector);
    assert((16u32 | 0) & 16 == 16 && (16u32 | 2) & 16 == 16) by (bit_vector);
}

/// An adapter is usable on three pairs of backend and platform, with the API of
/// the same name; on every other pair it is refused, by its name but for the
/// dummy one.
pub proof fn law_usable_adapters(wgpu_backend: WgpuBackend, platform: Platform)
    ensures
        ({
            let r = Backend::for_adapter(wgpu_backend, platform);
            &&& r == Ok::<Backend, SurfaceError>(Backend::Vulkan) <==> wgpu_backend is Vulkan
                && platform is Unix
            &&& r == Ok::<Backend, SurfaceError>(Backend::Metal) <==> wgpu_backend is Metal
                && platform is Apple
            &&& r == Ok::<Backend, SurfaceError>(Backend::Dx12) <==> wgpu_backend is Dx12
                && platform is Windows
            &&& r matches Err(error) ==> {
                &&& wgpu_backend is Noop ==> error is NoopBackend
                &&& !(wgpu_backend is Noop) ==> error == SurfaceError::UnsupportedBackend(
                    wgpu_backend,
                )
            }
        }),
{
}

/// OpenGL is avoided everywhere, Vulkan on Windows alone, and no other backend
/// is avoided anywhere.
pub proof fn law_avoided_backends(platform: Platform)
    ensures
        avoided_backends_bits(platform) & 16 == 16,
        avoided_backends_bits(platform) & 2 == 2 <==> platform is Windows,
        avoided_backends_bits(platform) & !18 == 0,
{
    assert((16u32 | 0) & 16 == 16 && (16u32 | 2) & 16 == 16) by (bit_vector);
    assert((16u32 | 0) & 2 == 0 && (16u32 | 2) & 2 == 2) by (bit_vector);
    assert((16u32 | 0) & !18u32 == 0 && (16u32 | 2) & !18u32 == 0) by (bit_vector);
}

/// The names of the backends and the bits that stand for them.
pub proof fn law_backend_names_and_bits()
    ensures
        WgpuBackend::Noop.text() == "noop"@ && WgpuBackend::Noop.flag() == 1,
        WgpuBackend::Vulkan.text() == "vulkan"@ && WgpuBackend::Vulkan.flag() == 2,
        WgpuBackend::Metal.text() == "metal"@ && WgpuBackend::Metal.flag() == 4,
        WgpuBackend::Dx12.text() == "dx12"@ && WgpuBackend::Dx12.flag() == 8,
        WgpuBackend::Gl.text() == "gl"@ && WgpuBackend::Gl.flag() == 16,
        WgpuBackend::BrowserWebGpu.text() == "webgpu"@ && WgpuBackend::BrowserWebGpu.flag() == 32,
{
}

} // verus!
