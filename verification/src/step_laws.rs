//! What each step of a frame, and each call on a surface, amounts to.

use vstd::prelude::*;

use crate::backend::{Backend, Platform, WgpuBackend};
use crate::config::{PhysicalSize, SurfaceConfiguration};
use crate::error::{AcquireError, SurfaceError};
use crate::overlay::OverlayDescriptor;
use crate::perf::{Damage, PerfOutcome};
use crate::render::{
    activity_during, RenderEvent, RenderStep, ResizeStep, RetryCause, SurfaceState,
};
use crate::surface::{refusal, WGPUTexture};

verus! {

/// The frame goes on with a step.
pub open spec fn goes_on<T>(
    next: Result<RenderStep<Seq<T>>, SurfaceError>,
    step: RenderStep<Seq<T>>,
) -> bool {
    next == Ok::<RenderStep<Seq<T>>, SurfaceError>(step)
}

/// The frame fails.
pub open spec fn fails<T>(
    next: Result<RenderStep<Seq<T>>, SurfaceError>,
    error: SurfaceError,
) -> bool {
    next == Err::<RenderStep<Seq<T>>, SurfaceError>(error)
}

/// A texture that the swapchain hands out is drawn on, at whichever attempt it
/// came: without a hook directly, with one through the overlay. The overlay is
/// created anew if there is none, or one of another width or height, and
/// otherwise used as it is.
pub proof fn law_acquired_texture_is_drawn_on<T, V, I, H>(
    state: SurfaceState<T, V, I, H>,
    size: PhysicalSize,
    step: RenderStep<Seq<T>>,
)
    requires
        step is Acquire || step is Reacquire,
    ensures
        ({
            let next = state.next_step(size, step, RenderEvent::Acquired);
            let fitting = state.inverted_ui is Some && state.inverted_ui->0.size.width == size.width
                && state.inverted_ui->0.size.height == size.height;
            &&& state.compose_hook is None ==> goes_on(next, RenderStep::WrapFrame)
            &&& state.compose_hook is Some && fitting ==> goes_on(
                next,
                RenderStep::TransitionOverlay,
            )
            &&& state.compose_hook is Some && !fitting ==> {
                &&& next matches Ok(RenderStep::CreateOverlay(overlay))
                &&& overlay.width == if size.width == 0 { 1 } else { size.width }
                &&& overlay.height == if size.height == 0 { 1 } else { size.height }
                &&& overlay.format == state.config.format
                &&& overlay.usage == 21
            }
        }),
{
    assert(16u32 | 4 | 1 == 21) by (bit_vector);
}

/// A swapchain that hands out no texture is asked once more: at once after a
/// timeout, and otherwise after it was configured as it is. Where it fails again
/// the frame fails, with the reason of the second failure.
pub proof fn law_swapchain_is_asked_twice<T, V, I, H>(
    state: SurfaceState<T, V, I, H>,
    size: PhysicalSize,
    error: AcquireError,
    config: SurfaceConfiguration,
)
    ensures
        ({
            let failed = RenderEvent::<T, V>::AcquireFailed(error);
            let first = state.next_step(size, RenderStep::Acquire, failed);
            &&& error is Timeout ==> goes_on(first, RenderStep::Reacquire(RetryCause::Timeout))
            &&& !(error is Timeout) ==> goes_on(first, RenderStep::Reconfigure(state.config))
            &&& goes_on(
                state.next_step(size, RenderStep::Reconfigure(config), RenderEvent::Reconfigured),
                RenderStep::Reacquire(RetryCause::Reconfigured),
            )
            &&& fails(
                state.next_step(size, RenderStep::Reacquire(RetryCause::Timeout), failed),
                SurfaceError::AcquireAfterTimeout(error),
            )
            &&& fails(
                state.next_step(size, RenderStep::Reacquire(RetryCause::Reconfigured), failed),
                SurfaceError::AcquireAfterError(error),
            )
        }),
{
}

/// A frame fails only where the swapchain fails a second time or a texture
/// cannot be wrapped: every other answer leads on.
pub proof fn law_frame_fails_only_with_its_step<T, V, I, H>(
    state: SurfaceState<T, V, I, H>,
    size: PhysicalSize,
    step: RenderStep<Seq<T>>,
    event: RenderEvent<T, V>,
)
    ensures
        state.next_step(size, step, event) is Err <==> event is WrapFailed || (
        event is AcquireFailed && step is Reacquire),
{
}

/// The overlay that was created is the one that the surface holds, with its
/// texture and its view, whatever overlay there was before. It is noted for the
/// size of the window, and as one that holds nothing. Then it is made a color
/// target, which does not change it, and wrapped.
pub proof fn law_created_overlay_is_held<T, V, I, H>(
    state: SurfaceState<T, V, I, H>,
    size: PhysicalSize,
    descriptor: OverlayDescriptor,
    texture: T,
    view: V,
)
    ensures
        ({
            let step = RenderStep::CreateOverlay(descriptor);
            let event = RenderEvent::OverlayCreated { texture, view };
            let held = state.next_state(size, step, event).inverted_ui;
            &&& goes_on(state.next_step(size, step, event), RenderStep::TransitionOverlay)
            &&& held is Some
            &&& held->0.texture == texture
            &&& held->0.view == view
            &&& held->0.size.width == size.width
            &&& held->0.size.height == size.height
            &&& held->0.fresh
        }),
        goes_on(
            state.next_step(size, RenderStep::TransitionOverlay, RenderEvent::Transitioned),
            RenderStep::WrapOverlay,
        ),
{
}

/// What was wrapped is painted: the swapchain's texture as one that holds
/// nothing; the overlay as one that holds nothing if it was never painted, and
/// otherwise as one of which only the changes are to be painted. From then on
/// the overlay counts as painted, and is otherwise the same.
pub proof fn law_wrapped_texture_is_painted<T, V, I, H>(
    state: SurfaceState<T, V, I, H>,
    size: PhysicalSize,
)
    ensures
        goes_on(
            state.next_step(size, RenderStep::WrapFrame, RenderEvent::Wrapped),
            RenderStep::Paint { age: 0, inverted: false },
        ),
        state.inverted_ui matches Some(ui) ==> {
            let held = state.next_state(
                size,
                RenderStep::WrapOverlay,
                RenderEvent::Wrapped,
            ).inverted_ui;
            let next = state.next_step(size, RenderStep::WrapOverlay, RenderEvent::Wrapped);
            &&& ui.fresh ==> goes_on(next, RenderStep::Paint { age: 0, inverted: true })
            &&& !ui.fresh ==> goes_on(next, RenderStep::Paint { age: 1, inverted: true })
            &&& held is Some
            &&& held->0.texture == ui.texture
            &&& held->0.view == ui.view
            &&& held->0.size == ui.size
            &&& !held->0.fresh
        },
        fails(
            state.next_step(size, RenderStep::WrapFrame, RenderEvent::WrapFailed),
            SurfaceError::WrapFrame,
        ),
        fails(
            state.next_step(size, RenderStep::WrapOverlay, RenderEvent::WrapFailed),
            SurfaceError::WrapOverlay,
        ),
{
}

/// A painting is logged where counters are kept, and nowhere else. The counters
/// take it in, and the log tells what came of it: the damage as it was reported,
/// and a line exactly if a whole second has passed.
pub proof fn law_painting_is_logged<T, V, I, H>(
    state: SurfaceState<T, V, I, H>,
    size: PhysicalSize,
    age: u8,
    inverted: bool,
    draw_us: u64,
    damage: Damage,
    elapsed_secs: u64,
)
    ensures
        ({
            let step = RenderStep::Paint { age, inverted };
            let event = RenderEvent::<T, V>::Painted { draw_us, damage, elapsed_secs };
            let next = state.next_step(size, step, event);
            let counters = state.next_state(size, step, event).ui_perf;
            &&& next matches Ok(next) && (next is Log <==> state.ui_perf is Some)
            &&& state.ui_perf is None ==> counters is None
            &&& state.ui_perf matches Some(perf) ==> {
                &&& next matches Ok(RenderStep::Log { outcome, inverted: logged })
                &&& logged == inverted
                &&& outcome.area == damage
                &&& outcome.report is Some <==> elapsed_secs >= 1
                &&& outcome.report matches Some(report) ==> report == perf.counted(draw_us, damage)
                &&& counters is Some
                &&& elapsed_secs == 0 ==> counters->0 == perf.counted(draw_us, damage)
                &&& elapsed_secs >= 1 ==> counters->0.frames == 0 && counters->0.full_repaints == 0
                    && counters->0.draw_us_sum == 0 && counters->0.draw_us_max == 0
            }
        }),
{
}

/// What was painted is submitted. Where textures were shown, all of them are made
/// ready first, in the order in which they were shown, and none of them waits
/// any longer; where none was shown, none is made ready.
pub proof fn law_textures_are_ready_before_submission<T, V, I, H>(
    state: SurfaceState<T, V, I, H>,
    size: PhysicalSize,
    step: RenderStep<Seq<T>>,
    event: RenderEvent<T, V>,
    inverted: bool,
    textures: Seq<T>,
)
    requires
        ({
            ||| (step matches RenderStep::Log { inverted: logged, .. } && logged == inverted)
                && event is Logged
            ||| (step matches RenderStep::Paint { inverted: painted, .. } && painted == inverted)
                && event is Painted && state.ui_perf is None
        }),
    ensures
        state.textures.len() == 0 ==> goes_on(
            state.next_step(size, step, event),
            RenderStep::Submit { inverted },
        ),
        state.textures.len() > 0 ==> goes_on(
            state.next_step(size, step, event),
            RenderStep::Transition { textures: state.textures, inverted },
        ),
        state.next_state(size, step, event).textures.len() == 0,
        goes_on(
            state.next_step(
                size,
                RenderStep::Transition { textures, inverted },
                RenderEvent::Transitioned,
            ),
            RenderStep::Submit { inverted },
        ),
{
}

/// What was submitted is presented once that was announced; in between the
/// overlay of an inverted window is offered for a dump and composed by the hook.
pub proof fn law_submitted_frame_is_presented<T, V, I, H>(
    state: SurfaceState<T, V, I, H>,
    size: PhysicalSize,
)
    ensures
        goes_on(
            state.next_step(size, RenderStep::Submit { inverted: false }, RenderEvent::Submitted),
            RenderStep::Announce,
        ),
        goes_on(
            state.next_step(size, RenderStep::Submit { inverted: true }, RenderEvent::Submitted),
            RenderStep::OfferDump,
        ),
        goes_on(
            state.next_step(size, RenderStep::OfferDump, RenderEvent::DumpOffered),
            RenderStep::Compose,
        ),
        goes_on(
            state.next_step(size, RenderStep::Compose, RenderEvent::Composed),
            RenderStep::Announce,
        ),
        goes_on(
            state.next_step(size, RenderStep::Announce, RenderEvent::Announced),
            RenderStep::Present,
        ),
        goes_on(
            state.next_step(size, RenderStep::Present, RenderEvent::Presented),
            RenderStep::Done,
        ),
{
}

/// A frame leaves alone what it has no business with. The configuration, the
/// backend, the images and the hook stay whatever happens; the overlay stays
/// unless one is created or it is wrapped, and is never taken away; the counters
/// stay unless something was painted; the frames stay unless one was presented,
/// which adds one as long as the number can be held, or the swapchain was
/// configured once more; and a texture that was shown waits until it is handed
/// out.
pub proof fn law_frame_keeps_the_rest<T, V, I, H>(
    state: SurfaceState<T, V, I, H>,
    size: PhysicalSize,
    step: RenderStep<Seq<T>>,
    event: RenderEvent<T, V>,
)
    ensures
        ({
            let after = state.next_state(size, step, event);
            let handed_out = state.next_step(size, step, event) matches Ok(next)
                && next is Transition;
            &&& after.config == state.config
            &&& after.backend == state.backend
            &&& after.images == state.images
            &&& after.compose_hook == state.compose_hook
            &&& after.inverted_ui == state.inverted_ui || event is OverlayCreated || (
            event is Wrapped && step is WrapOverlay)
            &&& state.inverted_ui is Some ==> after.inverted_ui is Some
            &&& after.ui_perf == state.ui_perf || event is Painted
            &&& !(event is Presented) && !(event is Reconfigured) ==> after.frames_since_configure
                == state.frames_since_configure
            &&& event is Reconfigured ==> after.frames_since_configure == 0
            &&& event is Presented && state.frames_since_configure < u32::MAX
                ==> after.frames_since_configure == state.frames_since_configure + 1
            &&& event is Presented && state.frames_since_configure == u32::MAX
                ==> after.frames_since_configure == u32::MAX
            &&& !handed_out ==> after.textures == state.textures
            &&& handed_out ==> after.textures.len() == 0
        }),
{
}

/// A surface is busy with the step that it has asked for, and with none once the
/// frame has failed or is done: with the overlay from its creation to the offer
/// of a dump, with the hook while it composes, and otherwise with a frame that
/// makes no use of the overlay.
pub proof fn law_activity_is_that_of_the_step<T, V, I, H>(
    state: SurfaceState<T, V, I, H>,
    size: PhysicalSize,
    step: RenderStep<Seq<T>>,
    event: RenderEvent<T, V>,
)
    ensures
        ({
            let activity = state.next_state(size, step, event).activity;
            match state.next_step(size, step, event) {
                Err(_) => activity is Idle,
                Ok(next) => {
                    let overlay = next is CreateOverlay || next is TransitionOverlay
                        || next is WrapOverlay || next is OfferDump || (next matches RenderStep::Paint {
                        inverted: true,
                        ..
                    }) || (next matches RenderStep::Log { inverted: true, .. }) || (
                    next matches RenderStep::Transition { inverted: true, .. }) || (
                    next matches RenderStep::Submit { inverted: true });
                    &&& activity is Idle <==> next is Acquire || next is Done
                    &&& activity is UsingOverlay <==> overlay
                    &&& activity is Composing <==> next is Compose
                },
            }
        }),
{
}

/// A step that is under way can be answered, whichever way it went, in every
/// state, and no other step can: all that is asked for is an overlay to be
/// wrapped, and room in the counters for a painting.
pub proof fn law_answers_are_taken<T, V, I, H>(
    state: SurfaceState<T, V, I, H>,
    step: RenderStep<Seq<T>>,
    event: RenderEvent<T, V>,
)
    ensures
        state.accepts(step, event) <==> {
            &&& state.activity == activity_during(step)
            &&& match step {
                RenderStep::Acquire => event is Acquired || event is AcquireFailed,
                RenderStep::Reconfigure(_) => event is Reconfigured,
                RenderStep::Reacquire(_) => event is Acquired || event is AcquireFailed,
                RenderStep::CreateOverlay(_) => event is OverlayCreated,
                RenderStep::TransitionOverlay => event is Transitioned,
                RenderStep::WrapOverlay => (event is Wrapped || event is WrapFailed)
                    && state.inverted_ui is Some,
                RenderStep::WrapFrame => event is Wrapped || event is WrapFailed,
                RenderStep::Paint { .. } => event matches RenderEvent::Painted { draw_us, .. } && (
                state.ui_perf matches Some(perf) ==> perf.frames < u32::MAX && perf.draw_us_sum
                    + draw_us <= u64::MAX),
                RenderStep::Log { .. } => event is Logged,
                RenderStep::Transition { .. } => event is Transitioned,
                RenderStep::Submit { .. } => event is Submitted,
                RenderStep::OfferDump => event is DumpOffered,
                RenderStep::Compose => event is Composed,
                RenderStep::Announce => event is Announced,
                RenderStep::Present => event is Presented,
                RenderStep::Done => false,
            }
        },
{
}

/// A frame can begin on any surface that is idle, with either answer of the
/// swapchain.
pub proof fn law_idle_surface_can_render<T, V, I, H>(
    state: SurfaceState<T, V, I, H>,
    error: AcquireError,
)
    requires
        state.activity is Idle,
    ensures
        state.accepts(RenderStep::Acquire, RenderEvent::Acquired),
        state.accepts(RenderStep::Acquire, RenderEvent::AcquireFailed(error)),
{
}

/// A hook can be set at any time but while it runs, and be removed at any time
/// but then and while the overlay is in use.
pub proof fn law_when_the_hook_can_be_set<T, V, I, H>(state: SurfaceState<T, V, I, H>)
    ensures
        state.allows_hook_change(false) <==> !(state.activity is Composing),
        state.allows_hook_change(true) <==> !(state.activity is Composing) && !(
        state.activity is UsingOverlay),
{
}

/// The hook that was set is the one that is installed. Setting one keeps the
/// overlay as it is, removing it takes the overlay away, and neither touches
/// anything else.
pub proof fn law_hook_is_set<T, V, I, H>(state: SurfaceState<T, V, I, H>, hook: Option<H>)
    ensures
        ({
            let after = state.with_compose_hook(hook);
            &&& after.compose_hook == hook
            &&& hook is Some ==> after.inverted_ui == state.inverted_ui
            &&& hook is None ==> after.inverted_ui is None
            &&& after.config == state.config
            &&& after.textures == state.textures
            &&& after.images == state.images
            &&& after.backend == state.backend
            &&& after.ui_perf == state.ui_perf
            &&& after.frames_since_configure == state.frames_since_configure
            &&& after.activity == state.activity
        }),
{
}

/// Showing a texture puts it at the end of those that wait and does nothing else.
pub proof fn law_texture_is_shown<T, V, I, H>(state: SurfaceState<T, V, I, H>, texture: T)
    ensures
        ({
            let after = state.with_texture_shown(texture);
            &&& after.textures.len() == state.textures.len() + 1
            &&& after.textures[state.textures.len() as int] == texture
            &&& forall|i: int|
                0 <= i < state.textures.len() ==> after.textures[i] == #[trigger] state.textures[i]
            &&& after.config == state.config
            &&& after.images == state.images
            &&& after.backend == state.backend
            &&& after.ui_perf == state.ui_perf
            &&& after.frames_since_configure == state.frames_since_configure
            &&& after.compose_hook == state.compose_hook
            &&& after.inverted_ui == state.inverted_ui
            &&& after.activity == state.activity
        }),
{
}

/// An image that was made is kept for its texture and for no other; where none
/// could be made, nothing is kept. Nothing else is touched.
pub proof fn law_image_is_kept_for_its_texture<T, V, I, H>(
    state: SurfaceState<T, V, I, H>,
    texture: T,
    image: Option<I>,
    other: T,
)
    ensures
        ({
            let after = state.with_image(texture, image);
            &&& image matches Some(image) ==> after.images.contains_key(texture)
                && after.images[texture] == image
            &&& other != texture || image is None ==> {
                &&& after.images.contains_key(other) == state.images.contains_key(other)
                &&& state.images.contains_key(other) ==> after.images[other] == state.images[other]
            }
            &&& after.config == state.config
            &&& after.textures == state.textures
            &&& after.backend == state.backend
            &&& after.ui_perf == state.ui_perf
            &&& after.frames_since_configure == state.frames_since_configure
            &&& after.compose_hook == state.compose_hook
            &&& after.inverted_ui == state.inverted_ui
            &&& after.activity == state.activity
        }),
{
}

/// A surface that is told the size that it has does nothing. Told another width
/// or height, it has Skia's work flushed, and then the swapchain configured with
/// that width and height, with the format that it had and paced by the display;
/// from the flush on it goes by that configuration, and has forgotten every image
/// and every frame, but neither the textures that wait nor the counters, the hook
/// and the overlay.
pub proof fn law_swapchain_follows_the_size<T, V, I, H>(
    state: SurfaceState<T, V, I, H>,
    size: PhysicalSize,
    config: SurfaceConfiguration,
)
    ensures
        ({
            let same = state.config.width == size.width && state.config.height == size.height;
            let begun = state.next_resize_step(size, ResizeStep::Begin);
            let flushed = state.next_resize_state(size, ResizeStep::Flush);
            let configure = state.next_resize_step(size, ResizeStep::Flush);
            &&& state.accepts_resize(size, ResizeStep::Begin)
            &&& state.next_resize_state(size, ResizeStep::Begin) == state
            &&& same ==> begun is Done
            &&& !same ==> {
                &&& begun is Flush
                &&& state.activity is Idle ==> state.accepts_resize(size, ResizeStep::Flush)
                &&& configure == ResizeStep::Configure(flushed.config)
                &&& flushed.config.width == size.width
                &&& flushed.config.height == size.height
                &&& flushed.config.present_mode is AutoVsync
                &&& flushed.config.format == state.config.format
                &&& forall|texture: T| !(#[trigger] flushed.images.contains_key(texture))
                &&& flushed.frames_since_configure == 0
                &&& flushed.textures == state.textures
                &&& flushed.backend == state.backend
                &&& flushed.ui_perf == state.ui_perf
                &&& flushed.compose_hook == state.compose_hook
                &&& flushed.inverted_ui == state.inverted_ui
                &&& flushed.activity == state.activity
            }
            &&& same ==> !state.accepts_resize(size, ResizeStep::Flush)
            &&& state.accepts_resize(size, ResizeStep::Configure(config)) <==> same
            &&& !state.accepts_resize(size, ResizeStep::Done)
            &&& state.next_resize_step(size, ResizeStep::Configure(config)) is Done
            &&& state.next_resize_state(size, ResizeStep::Configure(config)) == state
        }),
{
}

/// A surface in the middle of a frame is not flushed for a change of size.
pub proof fn law_no_flush_in_the_middle_of_a_frame<T, V, I, H>(
    state: SurfaceState<T, V, I, H>,
    size: PhysicalSize,
)
    requires
        !(state.activity is Idle),
    ensures
        !state.accepts_resize(size, ResizeStep::Flush),
{
}

/// A new surface has the configuration and the backend that it was given, and
/// nothing else: no textures, no images, no frames, no hook, no overlay and no
/// frame under way. Its counters, where they are switched on, are at zero.
pub proof fn law_new_surface_is_empty<T, V, I, H>(
    config: SurfaceConfiguration,
    backend: Backend,
    count: bool,
    texture: T,
)
    ensures
        ({
            let new = SurfaceState::<T, V, I, H>::initial(config, backend, count);
            &&& new.consistent()
            &&& new.config == config
            &&& new.backend == backend
            &&& new.textures.len() == 0
            &&& !new.images.contains_key(texture)
            &&& new.ui_perf is Some <==> count
            &&& new.ui_perf matches Some(perf) ==> perf.frames == 0 && perf.full_repaints == 0
                && perf.draw_us_sum == 0 && perf.draw_us_max == 0
            &&& new.frames_since_configure == 0
            &&& new.compose_hook is None
            &&& new.inverted_ui is None
            &&& new.activity is Idle
        }),
{
}

/// Giving up a frame makes a surface idle and changes nothing else.
pub proof fn law_abandoned_frame<T, V, I, H>(state: SurfaceState<T, V, I, H>)
    ensures
        ({
            let after = state.without_frame();
            &&& after.activity is Idle
            &&& after.config == state.config
            &&& after.textures == state.textures
            &&& after.images == state.images
            &&& after.backend == state.backend
            &&& after.ui_perf == state.ui_perf
            &&& after.frames_since_configure == state.frames_since_configure
            &&& after.compose_hook == state.compose_hook
            &&& after.inverted_ui == state.inverted_ui
        }),
{
}

/// A step that is handed to the caller is the one that the surface asks for,
/// with all that belongs to it: the same textures in the same order.
pub proof fn law_step_is_seen_as_it_is<T>(
    step: RenderStep<Vec<T>>,
    config: SurfaceConfiguration,
    cause: RetryCause,
    descriptor: OverlayDescriptor,
    age: u8,
    inverted: bool,
    outcome: PerfOutcome,
    textures: Vec<T>,
)
    ensures
        step@ is Acquire <==> step is Acquire,
        step@ == RenderStep::<Seq<T>>::Reconfigure(config) <==> step == RenderStep::<
            Vec<T>,
        >::Reconfigure(config),
        step@ == RenderStep::<Seq<T>>::Reacquire(cause) <==> step == RenderStep::<
            Vec<T>,
        >::Reacquire(cause),
        step@ == RenderStep::<Seq<T>>::CreateOverlay(descriptor) <==> step == RenderStep::<
            Vec<T>,
        >::CreateOverlay(descriptor),
        step@ is TransitionOverlay <==> step is TransitionOverlay,
        step@ is WrapOverlay <==> step is WrapOverlay,
        step@ is WrapFrame <==> step is WrapFrame,
        step@ == (RenderStep::<Seq<T>>::Paint { age, inverted }) <==> step == (RenderStep::<
            Vec<T>,
        >::Paint { age, inverted }),
        step@ == (RenderStep::<Seq<T>>::Log { outcome, inverted }) <==> step == (RenderStep::<
            Vec<T>,
        >::Log { outcome, inverted }),
        step@ is Transition <==> step is Transition,
        step == (RenderStep::<Vec<T>>::Transition { textures, inverted }) ==> step@ == (
        RenderStep::<Seq<T>>::Transition { textures: textures@, inverted }),
        step@ == (RenderStep::<Seq<T>>::Submit { inverted }) <==> step == (RenderStep::<
            Vec<T>,
        >::Submit { inverted }),
        step@ is OfferDump <==> step is OfferDump,
        step@ is Compose <==> step is Compose,
        step@ is Announce <==> step is Announce,
        step@ is Present <==> step is Present,
        step@ is Done <==> step is Done,
{
}

/// What a surface is busy with while each step is performed.
pub proof fn law_activity_of_each_step<L>(
    list: L,
    config: SurfaceConfiguration,
    cause: RetryCause,
    descriptor: OverlayDescriptor,
    age: u8,
    outcome: PerfOutcome,
)
    ensures
        activity_during(RenderStep::<L>::Acquire) is Idle,
        activity_during(RenderStep::<L>::Reconfigure(config)) is Drawing,
        activity_during(RenderStep::<L>::Reacquire(cause)) is Drawing,
        activity_during(RenderStep::<L>::CreateOverlay(descriptor)) is UsingOverlay,
        activity_during(RenderStep::<L>::TransitionOverlay) is UsingOverlay,
        activity_during(RenderStep::<L>::WrapOverlay) is UsingOverlay,
        activity_during(RenderStep::<L>::WrapFrame) is Drawing,
        activity_during(RenderStep::<L>::Paint { age, inverted: false }) is Drawing,
        activity_during(RenderStep::<L>::Paint { age, inverted: true }) is UsingOverlay,
        activity_during(RenderStep::<L>::Log { outcome, inverted: false }) is Drawing,
        activity_during(RenderStep::<L>::Log { outcome, inverted: true }) is UsingOverlay,
        activity_during(RenderStep::Transition { textures: list, inverted: false }) is Drawing,
        activity_during(RenderStep::Transition { textures: list, inverted: true }) is UsingOverlay,
        activity_during(RenderStep::<L>::Submit { inverted: false }) is Drawing,
        activity_during(RenderStep::<L>::Submit { inverted: true }) is UsingOverlay,
        activity_during(RenderStep::<L>::OfferDump) is UsingOverlay,
        activity_during(RenderStep::<L>::Compose) is Composing,
        activity_during(RenderStep::<L>::Announce) is Drawing,
        activity_during(RenderStep::<L>::Present) is Drawing,
        activity_during(RenderStep::<L>::Done) is Idle,
{
}

/// Every texture of this version of wgpu that the UI shows waits to be made
/// ready, whether its image was made before or not, and however often it is
/// shown; a texture of another version does nothing. The image is to be made
/// exactly if there is none yet.
pub proof fn law_every_import_is_shown<T, V, I, H>(
    state: SurfaceState<T, V, I, H>,
    texture: T,
)
    ensures
        ({
            let shown = state.after_import(WGPUTexture::WGPU28Texture(texture));
            let step = state.import_step(WGPUTexture::WGPU28Texture(texture));
            &&& shown.textures.len() == state.textures.len() + 1
            &&& shown.textures.last() == texture
            &&& shown.textures.drop_last() == state.textures
            &&& shown == SurfaceState { textures: shown.textures, ..state }
            &&& step is Cached <==> state.images.contains_key(texture)
            &&& step is Import <==> !state.images.contains_key(texture)
        }),
        state.after_import(WGPUTexture::WGPU27Texture) == state,
        state.import_step(WGPUTexture::WGPU27Texture) is Unsupported,
{
    let shown = state.after_import(WGPUTexture::WGPU28Texture(texture));
    assert(shown.textures.drop_last() =~= state.textures);
}

/// An image that was made of a texture is what is found for it, until the size
/// changes, and then none is found for any texture; none is found for a texture
/// of which none was made.
pub proof fn law_image_is_found_for_its_texture<T, V, I, H>(
    state: SurfaceState<T, V, I, H>,
    texture: T,
    image: I,
    other: T,
    size: PhysicalSize,
)
    ensures
        state.with_image(texture, Some(image)).image_of(texture) == Some(image),
        other != texture ==> state.with_image(texture, Some(image)).image_of(other)
            == state.image_of(other),
        state.with_image(texture, None).image_of(other) == state.image_of(other),
        state.config.width != size.width || state.config.height != size.height
            ==> state.next_resize_state(size, ResizeStep::Flush).image_of(texture) is None,
        state.image_of(other) is Some <==> state.images.contains_key(other),
        state.image_of(other) matches Some(found) ==> found == state.images[other],
{
}

/// The hook gets to see the overlay that there is, whether it was painted before
/// or not, and none where there is none.
pub proof fn law_hook_sees_the_overlay<T, V, I, H>(state: SurfaceState<T, V, I, H>)
    ensures
        state.inverted_ui matches Some(ui) ==> state.ui_view() == Some(ui.view),
        state.inverted_ui is None ==> state.ui_view() is None,
{
}

/// There is a surface on the adapters of Vulkan on a Unix, of Metal on Apple's
/// platforms and of Dx12 on Windows, as soon as there is a context, and on no
/// other. An adapter that cannot be used is refused for that, context or not.
pub proof fn law_who_gets_a_surface(
    wgpu_backend: WgpuBackend,
    platform: Platform,
    has_context: bool,
)
    ensures
        ({
            let usable = (wgpu_backend is Vulkan && platform is Unix) || (wgpu_backend is Metal
                && platform is Apple) || (wgpu_backend is Dx12 && platform is Windows);
            let refused = refusal(wgpu_backend, platform, has_context);
            &&& refused is None <==> usable && has_context
            &&& usable && !has_context ==> refused == Some(SurfaceError::SkiaContext)
            &&& wgpu_backend is Noop ==> refused == Some(SurfaceError::NoopBackend)
            &&& !usable && !(wgpu_backend is Noop) ==> refused == Some(
                SurfaceError::UnsupportedBackend(wgpu_backend),
            )
        }),
{
}

} // verus!
