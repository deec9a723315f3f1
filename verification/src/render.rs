//! The course of a frame, from the swapchain's texture to its presentation, and
//! of a change of size.
//!
//! Both are dialogues. The surface asks for one step at a time; the caller
//! performs it on the GPU and says how it went. The functions here say what the
//! surface asks for next and what it remembers.

use vstd::prelude::*;

use crate::backend::Backend;
use crate::config::{PhysicalSize, SurfaceConfiguration};
use crate::error::{AcquireError, SurfaceError};
use crate::overlay::{InvertedUi, OverlayDescriptor};
use crate::perf::{Damage, PerfOutcome, UiPerf};

verus! {

/// Why the swapchain is asked a second time for a texture.
#[derive(Clone, Copy, Debug, PartialEq, Eq, Structural)]
pub enum RetryCause {
    /// The first attempt timed out.
    Timeout,
    /// The first attempt failed otherwise, and the swapchain was configured once
    /// more.
    Reconfigured,
}

/// What the caller is to do next in a frame. `L` is a list of texture handles.
#[derive(Debug)]
pub enum RenderStep<L> {
    /// Ask the swapchain for its texture.
    Acquire,
    /// Configure the swapchain once more, as it is.
    Reconfigure(SurfaceConfiguration),
    /// Ask the swapchain again for its texture.
    Reacquire(RetryCause),
    /// Create the overlay texture and a view of it, clear it to transparency and
    /// leave it as a color target.
    CreateOverlay(OverlayDescriptor),
    /// Make the overlay a color target.
    TransitionOverlay,
    /// Wrap the overlay for Skia.
    WrapOverlay,
    /// Wrap the swapchain's texture for Skia.
    WrapFrame,
    /// Have the UI painted on what was wrapped last, told that its content is
    /// `age` frames old; age 0 stands for no content.
    Paint { age: u8, inverted: bool },
    /// Add the painting to the log.
    Log { outcome: PerfOutcome, inverted: bool },
    /// Make these textures, of which there is at least one, ready to be sampled.
    Transition { textures: L, inverted: bool },
    /// Submit Skia's work.
    Submit { inverted: bool },
    /// Offer the overlay for a dump.
    OfferDump,
    /// Have the compose hook draw the window.
    Compose,
    /// Announce the presentation.
    Announce,
    /// Present the swapchain's texture.
    Present,
    /// The frame is complete.
    Done,
}

impl<T> RenderStep<Vec<T>> {
    /// The step, with its list of textures as a sequence.
    pub open spec fn view(&self) -> RenderStep<Seq<T>> {
        match self {
            RenderStep::Acquire => RenderStep::Acquire,
            RenderStep::Reconfigure(config) => RenderStep::Reconfigure(*config),
            RenderStep::Reacquire(cause) => RenderStep::Reacquire(*cause),
            RenderStep::CreateOverlay(descriptor) => RenderStep::CreateOverlay(*descriptor),
            RenderStep::TransitionOverlay => RenderStep::TransitionOverlay,
            RenderStep::WrapOverlay => RenderStep::WrapOverlay,
            RenderStep::WrapFrame => RenderStep::WrapFrame,
            RenderStep::Paint { age, inverted } => RenderStep::Paint {
                age: *age,
                inverted: *inverted,
            },
            RenderStep::Log { outcome, inverted } => RenderStep::Log {
                outcome: *outcome,
                inverted: *inverted,
            },
            RenderStep::Transition { textures, inverted } => RenderStep::Transition {
                textures: textures@,
                inverted: *inverted,
            },
            RenderStep::Submit { inverted } => RenderStep::Submit { inverted: *inverted },
            RenderStep::OfferDump => RenderStep::OfferDump,
            RenderStep::Compose => RenderStep::Compose,
            RenderStep::Announce => RenderStep::Announce,
            RenderStep::Present => RenderStep::Present,
            RenderStep::Done => RenderStep::Done,
        }
    }
}

/// How a step of a frame went.
#[derive(Debug)]
pub enum RenderEvent<T, V> {
    /// The swapchain handed out its texture.
    Acquired,
    /// It did not.
    AcquireFailed(AcquireError),
    /// The swapchain was configured once more.
    Reconfigured,
    /// The overlay exists.
    OverlayCreated { texture: T, view: V },
    /// The overlay, or the textures, are ready.
    Transitioned,
    /// The texture is a Skia render target.
    Wrapped,
    /// It could not be made one.
    WrapFailed,
    /// The UI was painted, within `draw_us` microseconds. The last line of the
    /// log is `elapsed_secs` whole seconds old.
    Painted { draw_us: u64, damage: Damage, elapsed_secs: u64 },
    /// The painting was added to the log.
    Logged,
    /// Skia's work was submitted.
    Submitted,
    /// The overlay was dumped, or was not due.
    DumpOffered,
    /// The hook has drawn the window.
    Composed,
    /// The presentation was announced.
    Announced,
    /// The frame was presented.
    Presented,
}

/// What the caller is to do next when the window may have changed its size.
#[derive(Debug, PartialEq, Eq)]
pub enum ResizeStep {
    /// Nothing yet: the size is to be looked at.
    Begin,
    /// Submit all of Skia's work, and wait until it is done.
    Flush,
    /// Configure the swapchain.
    Configure(SurfaceConfiguration),
    /// The swapchain has the window's size.
    Done,
}

/// What a surface is busy with.
#[derive(Clone, Copy, Debug, PartialEq, Eq, Structural)]
pub enum Activity {
    /// No frame is under way.
    Idle,
    /// A frame is under way, and makes no use of the overlay.
    Drawing,
    /// The overlay is got ready, painted or submitted.
    UsingOverlay,
    /// The hook runs.
    Composing,
}

/// What a surface is busy with while a step is performed.
pub open spec fn activity_during<L>(step: RenderStep<L>) -> Activity {
    match step {
        RenderStep::Acquire => Activity::Idle,
        RenderStep::Done => Activity::Idle,
        RenderStep::CreateOverlay(_) => Activity::UsingOverlay,
        RenderStep::TransitionOverlay => Activity::UsingOverlay,
        RenderStep::WrapOverlay => Activity::UsingOverlay,
        RenderStep::OfferDump => Activity::UsingOverlay,
        RenderStep::Compose => Activity::Composing,
        RenderStep::Paint { inverted: true, .. } => Activity::UsingOverlay,
        RenderStep::Log { inverted: true, .. } => Activity::UsingOverlay,
        RenderStep::Transition { inverted: true, .. } => Activity::UsingOverlay,
        RenderStep::Submit { inverted: true } => Activity::UsingOverlay,
        _ => Activity::Drawing,
    }
}

impl<L> RenderStep<L> {
    /// What a surface is busy with while the step is performed.
    pub fn activity(&self) -> (activity: Activity)
        ensures
            activity == activity_during(*self),
    {
        match self {
            RenderStep::Acquire | RenderStep::Done => Activity::Idle,
            RenderStep::CreateOverlay(_)
            | RenderStep::TransitionOverlay
            | RenderStep::WrapOverlay
            | RenderStep::OfferDump => Activity::UsingOverlay,
            RenderStep::Compose => Activity::Composing,
            RenderStep::Paint { inverted, .. }
            | RenderStep::Log { inverted, .. }
            | RenderStep::Transition { inverted, .. }
            | RenderStep::Submit { inverted } => if *inverted {
                Activity::UsingOverlay
            } else {
                Activity::Drawing
            },
            RenderStep::Reconfigure(_)
            | RenderStep::Reacquire(_)
            | RenderStep::WrapFrame
            | RenderStep::Announce
            | RenderStep::Present => Activity::Drawing,
        }
    }
}

/// What a surface remembers from one call to the next.
#[verifier::reject_recursive_types(T)]
pub struct SurfaceState<T, V, I, H> {
    /// What the swapchain is configured with.
    pub config: SurfaceConfiguration,
    /// The textures that were shown and not yet handed out to be made ready, in
    /// the order in which they were shown.
    pub textures: Seq<T>,
    /// The Skia images of the textures that were imported at this size.
    pub images: Map<T, I>,
    /// The API through which Skia shares the device.
    pub backend: Backend,
    /// The counters, where they are switched on.
    pub ui_perf: Option<UiPerf>,
    /// The frames rendered since the swapchain was last configured, up to the
    /// largest number that can be held.
    pub frames_since_configure: u32,
    /// The hook, in inverted mode.
    pub compose_hook: Option<H>,
    /// The overlay, where there is one.
    pub inverted_ui: Option<InvertedUi<T, V>>,
    /// What the surface is busy with.
    pub activity: Activity,
}

impl<T, V, I, H> SurfaceState<T, V, I, H> {
    /// What holds of a surface at all times: the counters are consistent, there
    /// is an overlay only where there is a hook to compose it, and the hook is
    /// there as long as the surface is busy with the overlay.
    pub open spec fn consistent(self) -> bool {
        &&& self.ui_perf matches Some(perf) ==> perf.wf()
        &&& self.inverted_ui is Some ==> self.compose_hook is Some
        &&& self.activity is UsingOverlay || self.activity is Composing ==> self.compose_hook is Some
    }

    /// A surface that has not rendered anything.
    pub open spec fn initial(
        config: SurfaceConfiguration,
        backend: Backend,
        count: bool,
    ) -> SurfaceState<T, V, I, H> {
        SurfaceState {
            config,
            textures: Seq::empty(),
            images: Map::empty(),
            backend,
            ui_perf: if count {
                Some(UiPerf::zero())
            } else {
                None
            },
            frames_since_configure: 0,
            compose_hook: None,
            inverted_ui: None,
            activity: Activity::Idle,
        }
    }

    /// The hook can be removed or, with `removal` false, be set to another one:
    /// never while it runs, and while the overlay is in use only to another one.
    pub open spec fn allows_hook_change(self, removal: bool) -> bool {
        match self.activity {
            Activity::Composing => false,
            Activity::UsingOverlay => !removal,
            _ => true,
        }
    }

    /// The surface once a hook was installed or, with `None`, removed. Without a
    /// hook there is no overlay.
    pub open spec fn with_compose_hook(self, hook: Option<H>) -> SurfaceState<T, V, I, H> {
        SurfaceState {
            compose_hook: hook,
            inverted_ui: if hook is None {
                None
            } else {
                self.inverted_ui
            },
            ..self
        }
    }

    /// The surface once the window has this size. A swapchain of another size
    /// starts without frames, and the images made for the old one are gone.
    pub open spec fn with_size(self, size: PhysicalSize) -> SurfaceState<T, V, I, H> {
        if self.config.size() == size {
            self
        } else {
            SurfaceState {
                config: self.config.resized(size),
                images: Map::empty(),
                frames_since_configure: 0,
                ..self
            }
        }
    }

    /// The change to this size can go on once `step` was performed. Skia's work
    /// is flushed only between two frames.
    pub open spec fn accepts_resize(self, size: PhysicalSize, step: ResizeStep) -> bool {
        match step {
            ResizeStep::Begin => true,
            ResizeStep::Flush => self.config.size() != size && self.activity is Idle,
            ResizeStep::Configure(_) => self.config.size() == size,
            ResizeStep::Done => false,
        }
    }

    /// What is asked for once `step` was performed.
    pub open spec fn next_resize_step(self, size: PhysicalSize, step: ResizeStep) -> ResizeStep {
        match step {
            ResizeStep::Begin if self.config.size() != size => ResizeStep::Flush,
            ResizeStep::Flush => ResizeStep::Configure(self.config.resized(size)),
            _ => ResizeStep::Done,
        }
    }

    /// What the surface remembers once `step` was performed: it goes by the new
    /// size from the flush on.
    pub open spec fn next_resize_state(
        self,
        size: PhysicalSize,
        step: ResizeStep,
    ) -> SurfaceState<T, V, I, H> {
        if step is Flush {
            self.with_size(size)
        } else {
            self
        }
    }

    /// The surface once the UI has shown a texture.
    pub open spec fn with_texture_shown(self, texture: T) -> SurfaceState<T, V, I, H> {
        SurfaceState { textures: self.textures.push(texture), ..self }
    }

    /// The surface once an image was made of a texture or, with `None`, could
    /// not be made.
    pub open spec fn with_image(self, texture: T, image: Option<I>) -> SurfaceState<T, V, I, H> {
        match image {
            Some(image) => SurfaceState { images: self.images.insert(texture, image), ..self },
            None => self,
        }
    }

    /// The surface once the frame that was under way was given up.
    pub open spec fn without_frame(self) -> SurfaceState<T, V, I, H> {
        SurfaceState { activity: Activity::Idle, ..self }
    }

    /// The view of the overlay that the hook gets to see, where there is one.
    pub open spec fn ui_view(self) -> Option<V> {
        match self.inverted_ui {
            Some(ui) => Some(ui.view),
            None => None,
        }
    }

    /// The image that is found for a texture, where one was made.
    pub open spec fn image_of(self, texture: T) -> Option<I> {
        if self.images.contains_key(texture) {
            Some(self.images[texture])
        } else {
            None
        }
    }

    /// There is no overlay for a window of this size.
    pub open spec fn lacks_overlay(self, size: PhysicalSize) -> bool {
        self.inverted_ui matches Some(ui) ==> ui.size != size
    }

    /// The first step that draws: without a hook straight into the swapchain,
    /// with one into the overlay, which is created where it is lacking.
    pub open spec fn first_drawing_step(self, size: PhysicalSize) -> RenderStep<Seq<T>> {
        if self.compose_hook is None {
            RenderStep::WrapFrame
        } else if self.lacks_overlay(size) {
            RenderStep::CreateOverlay(OverlayDescriptor::covering(size, self.config.format))
        } else {
            RenderStep::TransitionOverlay
        }
    }

    /// The age that is reported for what was wrapped: the overlay keeps what
    /// earlier frames painted, the swapchain's texture may hold anything.
    pub open spec fn content_age(self, inverted: bool) -> u8 {
        if inverted && !self.inverted_ui->0.fresh {
            1
        } else {
            0
        }
    }

    /// The step that follows a painting that was logged: the textures that were
    /// shown are made ready first, if there are any.
    pub open spec fn submission_step(self, inverted: bool) -> RenderStep<Seq<T>> {
        if self.textures.len() == 0 {
            RenderStep::Submit { inverted }
        } else {
            RenderStep::Transition { textures: self.textures, inverted }
        }
    }

    /// `step` is under way, `event` answers it, and the surface can take note of
    /// it.
    pub open spec fn accepts(
        self,
        step: RenderStep<Seq<T>>,
        event: RenderEvent<T, V>,
    ) -> bool {
        &&& self.activity == activity_during(step)
        &&& match step {
            RenderStep::Acquire => event is Acquired || event is AcquireFailed,
            RenderStep::Reconfigure(_) => event is Reconfigured,
            RenderStep::Reacquire(_) => event is Acquired || event is AcquireFailed,
            RenderStep::CreateOverlay(_) => event is OverlayCreated,
            RenderStep::TransitionOverlay => event is Transitioned,
            RenderStep::WrapOverlay => (event is Wrapped || event is WrapFailed)
                && self.inverted_ui is Some,
            RenderStep::WrapFrame => event is Wrapped || event is WrapFailed,
            RenderStep::Paint { .. } => event matches RenderEvent::Painted { draw_us, .. } && (
            self.ui_perf matches Some(perf) ==> perf.has_room(draw_us)),
            RenderStep::Log { .. } => event is Logged,
            RenderStep::Transition { .. } => event is Transitioned,
            RenderStep::Submit { .. } => event is Submitted,
            RenderStep::OfferDump => event is DumpOffered,
            RenderStep::Compose => event is Composed,
            RenderStep::Announce => event is Announced,
            RenderStep::Present => event is Presented,
            RenderStep::Done => false,
        }
    }

    /// What is asked for after `event` has answered `step`, or how the frame
    /// fails.
    pub open spec fn next_step(
        self,
        size: PhysicalSize,
        step: RenderStep<Seq<T>>,
        event: RenderEvent<T, V>,
    ) -> Result<RenderStep<Seq<T>>, SurfaceError> {
        match event {
            RenderEvent::Acquired => Ok(self.first_drawing_step(size)),
            RenderEvent::AcquireFailed(error) => match step {
                RenderStep::Reacquire(RetryCause::Timeout) => Err(
                    SurfaceError::AcquireAfterTimeout(error),
                ),
                RenderStep::Reacquire(RetryCause::Reconfigured) => Err(
                    SurfaceError::AcquireAfterError(error),
                ),
                _ => Ok(
                    if error is Timeout {
                        RenderStep::Reacquire(RetryCause::Timeout)
                    } else {
                        RenderStep::Reconfigure(self.config)
                    },
                ),
            },
            RenderEvent::Reconfigured => Ok(RenderStep::Reacquire(RetryCause::Reconfigured)),
            RenderEvent::OverlayCreated { .. } => Ok(RenderStep::TransitionOverlay),
            RenderEvent::Transitioned => Ok(
                if step is TransitionOverlay {
                    RenderStep::WrapOverlay
                } else {
                    RenderStep::Submit { inverted: step->Transition_inverted }
                },
            ),
            RenderEvent::Wrapped => Ok(
                RenderStep::Paint {
                    age: self.content_age(step is WrapOverlay),
                    inverted: step is WrapOverlay,
                },
            ),
            RenderEvent::WrapFailed => Err(
                if step is WrapOverlay {
                    SurfaceError::WrapOverlay
                } else {
                    SurfaceError::WrapFrame
                },
            ),
            RenderEvent::Painted { draw_us, damage, elapsed_secs } => Ok(
                match self.ui_perf {
                    Some(perf) => RenderStep::Log {
                        outcome: perf.outcome(draw_us, damage, elapsed_secs),
                        inverted: step->Paint_inverted,
                    },
                    None => self.submission_step(step->Paint_inverted),
                },
            ),
            RenderEvent::Logged => Ok(self.submission_step(step->Log_inverted)),
            RenderEvent::Submitted => Ok(
                if step->Submit_inverted {
                    RenderStep::OfferDump
                } else {
                    RenderStep::Announce
                },
            ),
            RenderEvent::DumpOffered => Ok(RenderStep::Compose),
            RenderEvent::Composed => Ok(RenderStep::Announce),
            RenderEvent::Announced => Ok(RenderStep::Present),
            RenderEvent::Presented => Ok(RenderStep::Done),
        }
    }

    /// What the surface remembers after `event` has answered `step`. It is busy
    /// with what it asks for next, and textures that it hands out are no longer
    /// waiting.
    pub open spec fn next_state(
        self,
        size: PhysicalSize,
        step: RenderStep<Seq<T>>,
        event: RenderEvent<T, V>,
    ) -> SurfaceState<T, V, I, H> {
        let next = self.next_step(size, step, event);
        SurfaceState {
            activity: match next {
                Ok(next) => activity_during(next),
                Err(_) => Activity::Idle,
            },
            textures: match next {
                Ok(RenderStep::Transition { .. }) => Seq::empty(),
                _ => self.textures,
            },
            ..self.with_noted(size, step, event)
        }
    }

    /// The surface with what `event` tells of the overlay, the counters and the
    /// frames.
    pub open spec fn with_noted(
        self,
        size: PhysicalSize,
        step: RenderStep<Seq<T>>,
        event: RenderEvent<T, V>,
    ) -> SurfaceState<T, V, I, H> {
        match event {
            // A swapchain that is configured once more starts without frames.
            RenderEvent::Reconfigured => SurfaceState { frames_since_configure: 0, ..self },
            RenderEvent::OverlayCreated { texture, view } => SurfaceState {
                inverted_ui: Some(InvertedUi { texture, view, size, fresh: true }),
                ..self
            },
            // The overlay is about to be painted.
            RenderEvent::Wrapped if step is WrapOverlay => SurfaceState {
                inverted_ui: Some(InvertedUi { fresh: false, ..self.inverted_ui->0 }),
                ..self
            },
            RenderEvent::Painted { draw_us, damage, elapsed_secs } => SurfaceState {
                ui_perf: match self.ui_perf {
                    Some(perf) => Some(perf.after(draw_us, damage, elapsed_secs)),
                    None => None,
                },
                ..self
            },
            RenderEvent::Presented => SurfaceState {
                frames_since_configure: if self.frames_since_configure == u32::MAX {
                    u32::MAX
                } else {
                    (self.frames_since_configure + 1) as u32
                },
                ..self
            },
            _ => self,
        }
    }
}

} // verus!
