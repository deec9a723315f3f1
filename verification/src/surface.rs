//! A window's surface, and the calls that a renderer makes on it.

use std::collections::HashMap;
use std::hash::Hash;

use vstd::prelude::*;
use vstd::std_specs::hash::obeys_key_model;

use crate::backend::{Backend, Platform, WgpuBackend};
use crate::config::{
    initial_configuration, is_initial_configuration, PhysicalSize, PresentMode,
    SurfaceConfiguration, TextureFormat,
};
use crate::error::{AcquireError, SurfaceError};
use crate::overlay::{InvertedUi, OverlayDescriptor};
use crate::perf::UiPerf;
use crate::render::{Activity, RenderEvent, RenderStep, ResizeStep, RetryCause, SurfaceState};

verus! {

/// A surface that renders into a window. Without a compose hook the UI is drawn
/// straight into the swapchain. With one the window is inverted: the UI goes
/// into a persistent overlay, painted anew only where it changed, and the hook
/// composes the window's content with the overlay on top.
///
/// `T` is a handle of a texture, `V` one of a texture view, `I` one of a Skia
/// image, and `H` is the hook. The surface keeps them and hands them out; what
/// they stand for is the caller's.
pub struct WGPUSurface<T, V, I, H> {
    surface_config: SurfaceConfiguration,
    textures_to_transition_for_sampling: Vec<T>,
    texture_image_cache: HashMap<T, I>,
    backend: Backend,
    ui_perf: Option<UiPerf>,
    frames_since_configure: u32,
    compose_hook: Option<H>,
    inverted_ui: Option<InvertedUi<T, V>>,
    activity: Activity,
}

/// What a compose hook needs to know of the window that it draws, besides the
/// device and the target themselves.
pub struct ComposeCtx<'a, V> {
    /// The format of the target.
    pub format: &'a TextureFormat,
    pub width: u32,
    pub height: u32,
    /// The window's UI overlay, with premultiplied alpha, to be composited on
    /// top of the hook's own content. None until the overlay exists.
    pub ui: Option<&'a V>,
}

/// A texture that the UI shows as an image.
#[derive(Debug)]
pub enum WGPUTexture<T> {
    /// A texture of another version of wgpu, which this surface cannot show.
    WGPU27Texture,
    WGPU28Texture(T),
}

/// How a texture gets its Skia image.
#[derive(Clone, Copy, Debug, PartialEq, Eq, Structural)]
pub enum ImportStep {
    /// It gets none.
    Unsupported,
    /// From an earlier import.
    Cached,
    /// The caller has to make it, and to report it.
    Import,
}

impl<T, V, I, H> SurfaceState<T, V, I, H> {
    /// Where the image of a texture that the UI shows comes from.
    pub open spec fn import_step(self, any_wgpu_texture: WGPUTexture<T>) -> ImportStep {
        match any_wgpu_texture {
            WGPUTexture::WGPU27Texture => ImportStep::Unsupported,
            WGPUTexture::WGPU28Texture(texture) => if self.image_of(texture) is Some {
                ImportStep::Cached
            } else {
                ImportStep::Import
            },
        }
    }

    /// The surface once the UI has shown a texture of any version of wgpu.
    pub open spec fn after_import(
        self,
        any_wgpu_texture: WGPUTexture<T>,
    ) -> SurfaceState<T, V, I, H> {
        match any_wgpu_texture {
            WGPUTexture::WGPU27Texture => self,
            WGPUTexture::WGPU28Texture(texture) => self.with_texture_shown(texture),
        }
    }
}

/// What a surface is set up with: the first configuration of its swapchain, and
/// the API through which Skia shares the device of its adapter.
pub fn set_up(
    proposed: SurfaceConfiguration,
    formats: &Vec<TextureFormat>,
    wgpu_backend: WgpuBackend,
    platform: Platform,
) -> (r: Result<(SurfaceConfiguration, Backend), SurfaceError>)
    requires
        formats.len() > 0,
    ensures
        match (r, Backend::for_adapter(wgpu_backend, platform)) {
            (Ok((config, backend)), Ok(accepted)) => {
                &&& is_initial_configuration(config, proposed, formats@)
                &&& backend == accepted
                &&& platform.skia_backend() == Some(backend)
            },
            (Err(error), Err(refused)) => error == refused,
            _ => false,
        },
{
    match Backend::try_from(wgpu_backend, platform) {
        Ok(backend) => Ok((initial_configuration(proposed, formats), backend)),
        Err(error) => Err(error),
    }
}

/// Why there can be no surface on an adapter of `wgpu_backend`, if there can be
/// none: the adapter is looked at before the context.
pub open spec fn refusal(
    wgpu_backend: WgpuBackend,
    platform: Platform,
    has_context: bool,
) -> Option<SurfaceError> {
    match Backend::for_adapter(wgpu_backend, platform) {
        Err(error) => Some(error),
        Ok(_) => if has_context {
            None
        } else {
            Some(SurfaceError::SkiaContext)
        },
    }
}

impl<T, V, I, H> View for WGPUSurface<T, V, I, H> {
    type V = SurfaceState<T, V, I, H>;

    closed spec fn view(&self) -> SurfaceState<T, V, I, H> {
        SurfaceState {
            config: self.surface_config,
            textures: self.textures_to_transition_for_sampling@,
            images: self.texture_image_cache@,
            backend: self.backend,
            ui_perf: self.ui_perf,
            frames_since_configure: self.frames_since_configure,
            compose_hook: self.compose_hook,
            inverted_ui: self.inverted_ui,
            activity: self.activity,
        }
    }
}

impl<T: Eq + Hash, V, I, H> WGPUSurface<T, V, I, H> {
    /// What holds of a surface at all times: two handles that are the same key
    /// of a map are the same handle, and what it remembers is consistent.
    pub open spec fn wf(&self) -> bool {
        obeys_key_model::<T>() && self@.consistent()
    }

    /// A surface that has not rendered anything, for a window that proposes a
    /// configuration and offers some formats, on an adapter of `wgpu_backend`.
    /// `has_context` says whether a Skia context could be made on its device,
    /// through the API that Skia uses with the adapter.
    pub fn new(
        proposed: SurfaceConfiguration,
        formats: &Vec<TextureFormat>,
        wgpu_backend: WgpuBackend,
        platform: Platform,
        has_context: bool,
        perf_setting: Option<&str>,
    ) -> (r: Result<WGPUSurface<T, V, I, H>, SurfaceError>)
        requires
            obeys_key_model::<T>(),
            formats.len() > 0,
        ensures
            match (r, Backend::for_adapter(wgpu_backend, platform)) {
                (Ok(surface), Ok(backend)) => {
                    &&& has_context
                    &&& surface.wf()
                    &&& is_initial_configuration(surface@.config, proposed, formats@)
                    &&& surface@ == SurfaceState::<T, V, I, H>::initial(
                        surface@.config,
                        backend,
                        perf_setting matches Some(text) && text@ == "1"@,
                    )
                },
                (Err(error), Ok(_)) => !has_context && error is SkiaContext,
                (Err(error), Err(refused)) => error == refused,
                (Ok(_), Err(_)) => false,
            },
            match refusal(wgpu_backend, platform, has_context) {
                Some(refused) => r matches Err(error) && error == refused,
                None => r is Ok,
            },
    {
        let (config, backend) = match set_up(proposed, formats, wgpu_backend, platform) {
            Ok(chosen) => chosen,
            Err(error) => {
                return Err(error);
            },
        };
        if !has_context {
            return Err(SurfaceError::SkiaContext);
        }
        Ok(
            WGPUSurface {
                surface_config: config,
                textures_to_transition_for_sampling: Vec::new(),
                texture_image_cache: HashMap::new(),
                backend,
                ui_perf: UiPerf::new_if_enabled(perf_setting),
                frames_since_configure: 0,
                compose_hook: None,
                inverted_ui: None,
                activity: Activity::Idle,
            },
        )
    }

    /// The name of this kind of surface.
    pub fn name(&self) -> (name: &'static str)
        ensures
            name@ == "wgpu"@,
    {
        "wgpu"
    }

    /// What the swapchain is configured with.
    pub fn configuration(&self) -> (config: &SurfaceConfiguration)
        ensures
            *config == self@.config,
    {
        &self.surface_config
    }

    /// The API through which Skia shares the device.
    pub fn backend(&self) -> (backend: Backend)
        ensures
            backend == self@.backend,
    {
        self.backend
    }

    /// The counters, where they are switched on.
    pub fn ui_perf(&self) -> (perf: Option<UiPerf>)
        ensures
            perf == self@.ui_perf,
    {
        self.ui_perf
    }

    /// The frames rendered since the swapchain was last configured.
    pub fn frames_since_configure(&self) -> (frames: u32)
        ensures
            frames == self@.frames_since_configure,
    {
        self.frames_since_configure
    }

    /// The UI overlay, where there is one.
    pub fn inverted_ui(&self) -> (ui: Option<&InvertedUi<T, V>>)
        ensures
            match self@.inverted_ui {
                Some(overlay) => ui == Some(&overlay),
                None => ui is None,
            },
    {
        self.inverted_ui.as_ref()
    }

    /// Whether the hook can be removed now or, with `removal` false, be set to
    /// another one.
    pub fn can_set_compose_hook(&self, removal: bool) -> (can: bool)
        ensures
            can == self@.allows_hook_change(removal),
    {
        match self.activity {
            Activity::Composing => false,
            Activity::UsingOverlay => !removal,
            Activity::Idle | Activity::Drawing => true,
        }
    }

    /// Installs the compose hook, or removes it and the overlay with it. A hook
    /// cannot be set while it runs, nor be removed while the overlay is in use.
    pub fn set_compose_hook(&mut self, hook: Option<H>)
        requires
            old(self).wf(),
            old(self)@.allows_hook_change(hook is None),
        ensures
            final(self).wf(),
            final(self)@ == old(self)@.with_compose_hook(hook),
    {
        if hook.is_none() {
            self.inverted_ui = None;
        }
        self.compose_hook = hook;
    }

    /// The hook, where one is installed.
    pub fn compose_hook(&self) -> (hook: Option<&H>)
        ensures
            match self@.compose_hook {
                Some(installed) => hook == Some(&installed),
                None => hook is None,
            },
    {
        self.compose_hook.as_ref()
    }

    /// What the hook needs to know to draw the window.
    pub fn compose_ctx(&self) -> (ctx: ComposeCtx<'_, V>)
        ensures
            *ctx.format == self@.config.format,
            ctx.width == self@.config.width,
            ctx.height == self@.config.height,
            match self@.inverted_ui {
                Some(overlay) => ctx.ui == Some(&overlay.view),
                None => ctx.ui is None,
            },
            match self@.ui_view() {
                Some(view) => ctx.ui == Some(&view),
                None => ctx.ui is None,
            },
    {
        ComposeCtx {
            format: &self.surface_config.format,
            width: self.surface_config.width,
            height: self.surface_config.height,
            ui: match &self.inverted_ui {
                Some(ui) => Some(&ui.view),
                None => None,
            },
        }
    }

    /// Goes on with a change to this size, once `step` was performed. It begins
    /// with [`ResizeStep::Begin`] and ends with [`ResizeStep::Done`]. Where the
    /// size did not change, the swapchain is left alone. Where it did, Skia's
    /// work is flushed before the swapchain is configured; the images of
    /// imported textures and the frames of the old swapchain are forgotten.
    pub fn resize_event(&mut self, size: PhysicalSize, step: &ResizeStep) -> (next: ResizeStep)
        requires
            old(self).wf(),
            old(self)@.accepts_resize(size, *step),
        ensures
            final(self).wf(),
            final(self)@ == old(self)@.next_resize_state(size, *step),
            next == old(self)@.next_resize_step(size, *step),
    {
        match step {
            ResizeStep::Begin => if self.surface_config.width == size.width
                && self.surface_config.height == size.height {
                ResizeStep::Done
            } else {
                ResizeStep::Flush
            },
            ResizeStep::Flush => {
                self.surface_config.present_mode = PresentMode::AutoVsync;
                self.surface_config.width = size.width;
                self.surface_config.height = size.height;
                self.texture_image_cache.clear();
                self.frames_since_configure = 0;
                ResizeStep::Configure(self.surface_config.clone())
            },
            ResizeStep::Configure(_) | ResizeStep::Done => ResizeStep::Done,
        }
    }

    /// The depth of the swapchain in bits, where its format is one of known
    /// depth.
    pub fn bits_per_pixel(&self) -> (r: Result<u8, SurfaceError>)
        ensures
            r == match self@.config.format {
                TextureFormat::Other(text) => Err::<u8, SurfaceError>(
                    SurfaceError::UnsupportedFormat(text),
                ),
                _ => Ok(32),
            },
            r is Ok <==> self@.config.format.depth() is Some,
            r matches Ok(bits) ==> self@.config.format.depth() == Some(bits),
    {
        match &self.surface_config.format {
            TextureFormat::Rgba8Unorm
            | TextureFormat::Rgba8UnormSrgb
            | TextureFormat::Bgra8Unorm
            | TextureFormat::Bgra8UnormSrgb => Ok(32),
            TextureFormat::Other(text) => Err(SurfaceError::UnsupportedFormat(text.clone())),
        }
    }

    /// Takes note that the UI shows a texture, so that it can be made ready for
    /// that before Skia's work is submitted, and says where its image comes
    /// from.
    pub fn import_wgpu_texture(&mut self, any_wgpu_texture: WGPUTexture<T>) -> (step: ImportStep)
        requires
            old(self).wf(),
        ensures
            final(self).wf(),
            match any_wgpu_texture {
                WGPUTexture::WGPU27Texture => step is Unsupported && final(self)@ == old(self)@,
                WGPUTexture::WGPU28Texture(texture) => {
                    &&& step == if old(self)@.images.contains_key(texture) {
                        ImportStep::Cached
                    } else {
                        ImportStep::Import
                    }
                    &&& final(self)@ == old(self)@.with_texture_shown(texture)
                },
            },
            step == old(self)@.import_step(any_wgpu_texture),
            final(self)@ == old(self)@.after_import(any_wgpu_texture),
    {
        match any_wgpu_texture {
            WGPUTexture::WGPU27Texture => ImportStep::Unsupported,
            WGPUTexture::WGPU28Texture(texture) => {
                let cached: bool = self.texture_image_cache.contains_key(&texture);
                self.textures_to_transition_for_sampling.push(texture);
                if cached {
                    ImportStep::Cached
                } else {
                    ImportStep::Import
                }
            },
        }
    }

    /// The image of a texture, where it was imported at this size.
    pub fn cached_image(&self, texture: &T) -> (image: Option<&I>)
        requires
            self.wf(),
        ensures
            image == if self@.images.contains_key(*texture) {
                Some(&self@.images[*texture])
            } else {
                None
            },
            match self@.image_of(*texture) {
                Some(made) => image == Some(&made),
                None => image is None,
            },
    {
        self.texture_image_cache.get(texture)
    }

    /// Takes note of the image that was made of a texture, if one could be made.
    pub fn finish_import(&mut self, texture: T, image: Option<I>)
        requires
            old(self).wf(),
        ensures
            final(self).wf(),
            final(self)@ == old(self)@.with_image(texture, image),
    {
        if let Some(image) = image {
            self.texture_image_cache.insert(texture, image);
        }
    }

    /// Goes on with a frame for a window of this size: `event` answers `step`.
    /// A frame begins with [`RenderStep::Acquire`] and ends with
    /// [`RenderStep::Done`] or an error.
    pub fn render(
        &mut self,
        size: PhysicalSize,
        step: &RenderStep<Vec<T>>,
        event: RenderEvent<T, V>,
    ) -> (next: Result<RenderStep<Vec<T>>, SurfaceError>)
        requires
            old(self).wf(),
            old(self)@.accepts(step@, event),
        ensures
            final(self).wf(),
            final(self)@ == old(self)@.next_state(size, step@, event),
            match (next, old(self)@.next_step(size, step@, event)) {
                (Ok(next), Ok(expected)) => next@ == expected,
                (Err(error), Err(expected)) => error == expected,
                _ => false,
            },
    {
        let next = self.take_note(size, step, event);
        self.activity = match &next {
            Ok(next) => next.activity(),
            Err(_) => Activity::Idle,
        };
        next
    }

    /// Takes note of what `event` tells, and says what comes next.
    fn take_note(
        &mut self,
        size: PhysicalSize,
        step: &RenderStep<Vec<T>>,
        event: RenderEvent<T, V>,
    ) -> (next: Result<RenderStep<Vec<T>>, SurfaceError>)
        requires
            old(self).wf(),
            old(self)@.accepts(step@, event),
        ensures
            final(self)@ == (SurfaceState {
                activity: old(self)@.activity,
                ..old(self)@.next_state(size, step@, event)
            }),
            final(self)@.ui_perf matches Some(perf) ==> perf.wf(),
            match (next, old(self)@.next_step(size, step@, event)) {
                (Ok(next), Ok(expected)) => next@ == expected,
                (Err(error), Err(expected)) => error == expected,
                _ => false,
            },
    {
        match event {
            RenderEvent::Acquired => Ok(self.begin_drawing(size)),
            RenderEvent::AcquireFailed(error) => match step {
                RenderStep::Reacquire(RetryCause::Timeout) => Err(
                    SurfaceError::AcquireAfterTimeout(error),
                ),
                RenderStep::Reacquire(RetryCause::Reconfigured) => Err(
                    SurfaceError::AcquireAfterError(error),
                ),
                _ => {
                    if error == AcquireError::Timeout {
                        Ok(RenderStep::Reacquire(RetryCause::Timeout))
                    } else {
                        Ok(RenderStep::Reconfigure(self.surface_config.clone()))
                    }
                },
            },
            RenderEvent::Reconfigured => {
                self.frames_since_configure = 0;
                Ok(RenderStep::Reacquire(RetryCause::Reconfigured))
            },
            RenderEvent::OverlayCreated { texture, view } => {
                self.inverted_ui = Some(InvertedUi { texture, view, size, fresh: true });
                Ok(RenderStep::TransitionOverlay)
            },
            RenderEvent::Transitioned => match step {
                RenderStep::Transition { inverted, .. } => Ok(
                    RenderStep::Submit { inverted: *inverted },
                ),
                _ => Ok(RenderStep::WrapOverlay),
            },
            RenderEvent::Wrapped => match (step, &mut self.inverted_ui) {
                (RenderStep::WrapOverlay, Some(ui)) => {
                    let age: u8 = if ui.fresh {
                        0
                    } else {
                        1
                    };
                    ui.fresh = false;
                    Ok(RenderStep::Paint { age, inverted: true })
                },
                _ => Ok(RenderStep::Paint { age: 0, inverted: false }),
            },
            RenderEvent::WrapFailed => match step {
                RenderStep::WrapOverlay => Err(SurfaceError::WrapOverlay),
                _ => Err(SurfaceError::WrapFrame),
            },
            RenderEvent::Painted { draw_us, damage, elapsed_secs } => {
                let inverted: bool = match step {
                    RenderStep::Paint { inverted, .. } => *inverted,
                    _ => false,
                };
                match &mut self.ui_perf {
                    Some(perf) => {
                        let outcome = perf.record(draw_us, damage, elapsed_secs);
                        Ok(RenderStep::Log { outcome, inverted })
                    },
                    None => Ok(self.begin_submission(inverted)),
                }
            },
            RenderEvent::Logged => {
                let inverted: bool = match step {
                    RenderStep::Log { inverted, .. } => *inverted,
                    _ => false,
                };
                Ok(self.begin_submission(inverted))
            },
            RenderEvent::Submitted => match step {
                RenderStep::Submit { inverted: true } => Ok(RenderStep::OfferDump),
                _ => Ok(RenderStep::Announce),
            },
            RenderEvent::DumpOffered => Ok(RenderStep::Compose),
            RenderEvent::Composed => Ok(RenderStep::Announce),
            RenderEvent::Announced => Ok(RenderStep::Present),
            RenderEvent::Presented => {
                self.frames_since_configure = self.frames_since_configure.saturating_add(1);
                Ok(RenderStep::Done)
            },
        }
    }

    /// The first step that draws.
    fn begin_drawing(&self, size: PhysicalSize) -> (step: RenderStep<Vec<T>>)
        ensures
            step@ == self@.first_drawing_step(size),
    {
        if self.compose_hook.is_none() {
            return RenderStep::WrapFrame;
        }
        match &self.inverted_ui {
            Some(ui) if ui.size == size => RenderStep::TransitionOverlay,
            _ => RenderStep::CreateOverlay(
                OverlayDescriptor::new(size, self.surface_config.format.clone()),
            ),
        }
    }

    /// The step that follows the painting, and the log of it. It takes along the
    /// textures that were shown.
    fn begin_submission(&mut self, inverted: bool) -> (step: RenderStep<Vec<T>>)
        ensures
            step@ == old(self)@.submission_step(inverted),
            final(self)@ == (SurfaceState {
                textures: if step is Transition {
                    Seq::empty()
                } else {
                    old(self)@.textures
                },
                ..old(self)@
            }),
    {
        if self.textures_to_transition_for_sampling.len() == 0 {
            return RenderStep::Submit { inverted };
        }
        let mut textures: Vec<T> = Vec::new();
        std::mem::swap(&mut textures, &mut self.textures_to_transition_for_sampling);
        RenderStep::Transition { textures, inverted }
    }

    /// Gives up the frame that is under way, where there is one, when it cannot
    /// go on.
    pub fn abandon_frame(&mut self)
        requires
            old(self).wf(),
        ensures
            final(self).wf(),
            final(self)@ == old(self)@.without_frame(),
    {
        self.activity = Activity::Idle;
    }
}

} // verus!
