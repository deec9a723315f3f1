//! What can go wrong while a surface is set up or a frame is rendered.

use vstd::prelude::*;

use crate::backend::{backend_text, WgpuBackend};

verus! {

/// Why the swapchain did not hand out a texture.
#[derive(Clone, Copy, Debug, PartialEq, Eq, Structural)]
pub enum AcquireError {
    Timeout,
    Outdated,
    Lost,
    OutOfMemory,
    Other,
}

impl AcquireError {
    /// The sentence in which wgpu words this error.
    pub open spec fn text(self) -> Seq<char> {
        match self {
            AcquireError::Timeout => "A timeout was encountered while trying to acquire the next frame"@,
            AcquireError::Outdated => "The underlying surface has changed, and therefore the swap chain must be updated"@,
            AcquireError::Lost => "The swap chain has been lost and needs to be recreated"@,
            AcquireError::OutOfMemory => "There is no more memory left to allocate a new frame"@,
            AcquireError::Other => "Acquiring a texture failed with a generic error. Check error callbacks for more information"@,
        }
    }
}

/// Calls the `Display` impl of `wgpu::SurfaceError`, through `to_string`. The
/// contract claims that it writes one fixed sentence for each variant, the one
/// that [`AcquireError::text`] gives, and nothing around it.
#[verifier::external_body]
fn acquire_error_display(error: AcquireError) -> (text: String)
    ensures
        text@ == error.text(),
{
    let outside = match error {
        AcquireError::Timeout => wgpu::SurfaceError::Timeout,
        AcquireError::Outdated => wgpu::SurfaceError::Outdated,
        AcquireError::Lost => wgpu::SurfaceError::Lost,
        AcquireError::OutOfMemory => wgpu::SurfaceError::OutOfMemory,
        AcquireError::Other => wgpu::SurfaceError::Other,
    };
    outside.to_string()
}

/// An error of a surface.
#[derive(Debug, PartialEq, Eq)]
pub enum SurfaceError {
    /// The adapter runs on wgpu's dummy backend.
    NoopBackend,
    /// The adapter runs on a backend that Skia cannot share on this platform.
    UnsupportedBackend(WgpuBackend),
    /// No Skia context could be made on the adapter's device.
    SkiaContext,
    /// The swapchain timed out, and the second attempt failed too.
    AcquireAfterTimeout(AcquireError),
    /// The swapchain failed, and failed again once it had been reconfigured.
    AcquireAfterError(AcquireError),
    /// The UI overlay texture could not be made a Skia render target.
    WrapOverlay,
    /// The swapchain texture could not be made a Skia render target.
    WrapFrame,
    /// The swapchain has a format of unknown depth; its debug text is held.
    UnsupportedFormat(String),
}

impl SurfaceError {
    /// The message of this error.
    pub open spec fn text(self) -> Seq<char> {
        match self {
            SurfaceError::NoopBackend => "Cannot use WGPU Noop backend with Skia"@,
            SurfaceError::UnsupportedBackend(backend) =>
                "Unsupported WGPU backend for use with Skia: "@ + backend.text(),
            SurfaceError::SkiaContext => "Failed to create Skia context from WGPU"@,
            SurfaceError::AcquireAfterTimeout(error) =>
                "Error obtaining current surface texture after timeout: "@ + error.text(),
            SurfaceError::AcquireAfterError(error) =>
                "Error obtaining current surface texture after initial error: "@ + error.text(),
            SurfaceError::WrapOverlay => "Failed to wrap UI overlay texture for Skia"@,
            SurfaceError::WrapFrame => "Failed to create Skia surface from WGPU"@,
            SurfaceError::UnsupportedFormat(format) => "Unsupported surface format "@ + format@,
        }
    }

    /// The message of this error, to be shown to a user.
    pub fn message(&self) -> (message: String)
        ensures
            message@ == self.text(),
    {
        match self {
            SurfaceError::NoopBackend => "Cannot use WGPU Noop backend with Skia".to_owned(),
            SurfaceError::UnsupportedBackend(backend) => {
                let name = backend_text(*backend);
                "Unsupported WGPU backend for use with Skia: ".to_owned().concat(name.as_str())
            },
            SurfaceError::SkiaContext => "Failed to create Skia context from WGPU".to_owned(),
            SurfaceError::AcquireAfterTimeout(error) => {
                let reason = acquire_error_display(*error);
                "Error obtaining current surface texture after timeout: ".to_owned().concat(
                    reason.as_str(),
                )
            },
            SurfaceError::AcquireAfterError(error) => {
                let reason = acquire_error_display(*error);
                "Error obtaining current surface texture after initial error: ".to_owned().concat(
                    reason.as_str(),
                )
            },
            SurfaceError::WrapOverlay => "Failed to wrap UI overlay texture for Skia".to_owned(),
            SurfaceError::WrapFrame => "Failed to create Skia surface from WGPU".to_owned(),
            SurfaceError::UnsupportedFormat(format) => {
                "Unsupported surface format ".to_owned().concat(format.as_str())
            },
        }
    }
}

/// Every message says what went wrong and, where there is one, names the reason
/// in full at its end.
pub proof fn law_messages_name_the_reason(
    backend: WgpuBackend,
    error: AcquireError,
    format: String,
)
    ensures
        SurfaceError::NoopBackend.text() == "Cannot use WGPU Noop backend with Skia"@,
        SurfaceError::SkiaContext.text() == "Failed to create Skia context from WGPU"@,
        SurfaceError::WrapOverlay.text() == "Failed to wrap UI overlay texture for Skia"@,
        SurfaceError::WrapFrame.text() == "Failed to create Skia surface from WGPU"@,
        SurfaceError::UnsupportedBackend(backend).text()
            == "Unsupported WGPU backend for use with Skia: "@ + backend.text(),
        SurfaceError::AcquireAfterTimeout(error).text()
            == "Error obtaining current surface texture after timeout: "@ + error.text(),
        SurfaceError::AcquireAfterError(error).text()
            == "Error obtaining current surface texture after initial error: "@ + error.text(),
        SurfaceError::UnsupportedFormat(format).text() == "Unsupported surface format "@ + format@,
{
}

/// The sentences in which wgpu tells why there is no texture.
pub proof fn law_acquire_error_sentences()
    ensures
        AcquireError::Timeout.text()
            == "A timeout was encountered while trying to acquire the next frame"@,
        AcquireError::Outdated.text()
            == "The underlying surface has changed, and therefore the swap chain must be updated"@,
        AcquireError::Lost.text() == "The swap chain has been lost and needs to be recreated"@,
        AcquireError::OutOfMemory.text() == "There is no more memory left to allocate a new frame"@,
        AcquireError::Other.text()
            == "Acquiring a texture failed with a generic error. Check error callbacks for more information"@,
{
}

} // verus!
