//! What holds of whole frames, and from one call on a surface to the next.

use vstd::prelude::*;

use crate::backend::Backend;
use crate::config::{PhysicalSize, SurfaceConfiguration};
use crate::error::SurfaceError;
use crate::overlay::OverlayDescriptor;
use crate::perf::law_counters_stay_consistent;
use crate::render::{
    activity_during, RenderEvent, RenderStep, ResizeStep, RetryCause, SurfaceState,
};
use crate::step_laws::law_acquired_texture_is_drawn_on;

verus! {

/// One call on a surface.
pub enum Call<T, V, I, H> {
    /// A hook is installed, replaced or removed.
    SetComposeHook(Option<H>),
    /// A change to this size goes on.
    Resize(PhysicalSize, ResizeStep),
    /// The UI shows a texture.
    Show(T),
    /// An image was made of a texture, or could not be made.
    MakeImage(T, Option<I>),
    /// A frame goes on.
    Render(PhysicalSize, RenderStep<Seq<T>>, RenderEvent<T, V>),
    /// A frame is given up.
    AbandonFrame,
}

impl<T, V, I, H> Call<T, V, I, H> {
    /// The call does not tell of another size.
    pub open spec fn keeps_size(self, size: PhysicalSize) -> bool {
        self matches Call::Resize(told, _) ==> told == size
    }

    /// The call is one that can be made in the middle of a frame.
    pub open spec fn is_use(self) -> bool {
        match self {
            Call::SetComposeHook(_) => true,
            Call::Resize(_, step) => step is Begin,
            Call::Show(_) => true,
            Call::MakeImage(_, _) => true,
            Call::Render(_, _, _) => false,
            Call::AbandonFrame => false,
        }
    }
}

impl<T, V, I, H> SurfaceState<T, V, I, H> {
    /// The surface can take the call: it allows the hook to be set, an event
    /// answers its step, and an image is made only of a texture that has none.
    pub open spec fn admits(self, call: Call<T, V, I, H>) -> bool {
        match call {
            Call::SetComposeHook(hook) => self.allows_hook_change(hook is None),
            Call::Resize(size, step) => self.accepts_resize(size, step),
            Call::Show(_) => true,
            Call::MakeImage(texture, _) => !self.images.contains_key(texture),
            Call::Render(_, step, event) => self.accepts(step, event),
            Call::AbandonFrame => true,
        }
    }

    /// The surface after the call.
    pub open spec fn after_call(self, call: Call<T, V, I, H>) -> SurfaceState<T, V, I, H> {
        match call {
            Call::SetComposeHook(hook) => self.with_compose_hook(hook),
            Call::Resize(size, step) => self.next_resize_state(size, step),
            Call::Show(texture) => self.with_texture_shown(texture),
            Call::MakeImage(texture, image) => self.with_image(texture, image),
            Call::Render(size, step, event) => self.next_state(size, step, event),
            Call::AbandonFrame => self.without_frame(),
        }
    }

    /// The surface after all calls of a history, in turn.
    pub open spec fn after(self, history: Seq<Call<T, V, I, H>>) -> SurfaceState<T, V, I, H>
        decreases history.len(),
    {
        if history.len() == 0 {
            self
        } else {
            self.after(history.drop_last()).after_call(history.last())
        }
    }

    /// The surface can take the calls of a history, one after the other.
    pub open spec fn admits_all(self, history: Seq<Call<T, V, I, H>>) -> bool
        decreases history.len(),
    {
        history.len() == 0 || {
            &&& self.admits_all(history.drop_last())
            &&& self.after(history.drop_last()).admits(history.last())
        }
    }

    /// `later` is what the surface may be once textures were shown, images made
    /// and the hook set, any number of times: the list of textures and the
    /// images have only grown, and the overlay is the same one or, after the
    /// hook was removed, gone.
    pub open spec fn is_used_into(self, later: SurfaceState<T, V, I, H>) -> bool {
        &&& later == SurfaceState {
            textures: later.textures,
            images: later.images,
            compose_hook: later.compose_hook,
            inverted_ui: later.inverted_ui,
            ..self
        }
        &&& self.textures.is_prefix_of(later.textures)
        &&& self.images.submap_of(later.images)
        &&& later.inverted_ui == self.inverted_ui || later.inverted_ui is None
    }
}

/// Whatever calls are made on a surface in the middle of a frame, the textures
/// and images only grow, the overlay stays or goes with the hook, and the rest
/// stays. While the overlay is in use, it stays, and a hook stays in place;
/// while the hook runs, it is not even replaced.
pub proof fn law_use_in_the_middle_of_a_frame<T, V, I, H>(
    state: SurfaceState<T, V, I, H>,
    history: Seq<Call<T, V, I, H>>,
)
    requires
        state.admits_all(history),
        forall|i: int| 0 <= i < history.len() ==> (#[trigger] history[i]).is_use(),
    ensures
        state.is_used_into(state.after(history)),
        state.activity is UsingOverlay || state.activity is Composing ==> state.after(
            history,
        ).inverted_ui == state.inverted_ui,
        state.activity is UsingOverlay && state.compose_hook is Some ==> state.after(
            history,
        ).compose_hook is Some,
        state.activity is Composing ==> state.after(history).compose_hook == state.compose_hook,
    decreases history.len(),
{
    if history.len() > 0 {
        let earlier = history.drop_last();
        assert forall|i: int| 0 <= i < earlier.len() implies (#[trigger] earlier[i]).is_use() by {
            assert(history[i].is_use());
        }
        law_use_in_the_middle_of_a_frame(state, earlier);
        assert(history[history.len() - 1].is_use());
    }
}

/// A surface stays consistent whatever calls it takes.
pub proof fn law_surface_stays_consistent<T, V, I, H>(
    state: SurfaceState<T, V, I, H>,
    history: Seq<Call<T, V, I, H>>,
)
    requires
        state.consistent(),
        state.admits_all(history),
    ensures
        state.after(history).consistent(),
    decreases history.len(),
{
    if history.len() > 0 {
        let earlier = history.drop_last();
        law_surface_stays_consistent(state, earlier);
        let before = state.after(earlier);
        match history.last() {
            Call::Render(_, step, RenderEvent::Painted { draw_us, damage, .. }) => {
                if let Some(perf) = before.ui_perf {
                    law_counters_stay_consistent(perf, draw_us, damage);
                }
            },
            _ => {},
        }
    }
}

/// The caller's own code runs while the step is performed: while the UI is
/// painted, while the hook composes and while the presentation is announced.
pub open spec fn runs_callers_code<T>(step: RenderStep<Seq<T>>) -> bool {
    step is Paint || step is Compose || step is Announce
}

/// A surface that was left as `kept` when `step` was asked for is `found` as it
/// is when the step is answered: the caller's code may have made calls on it.
pub open spec fn is_found<T, V, I, H>(
    kept: SurfaceState<T, V, I, H>,
    step: RenderStep<Seq<T>>,
    found: SurfaceState<T, V, I, H>,
) -> bool {
    exists|history: Seq<Call<T, V, I, H>>|
        {
            &&& #[trigger] kept.admits_all(history)
            &&& forall|i: int|
                0 <= i < history.len() ==> (#[trigger] history[i]).is_use() && runs_callers_code(
                    step,
                )
            &&& found == kept.after(history)
        }
}

/// What the caller's code can make of a surface while a step is performed.
proof fn lemma_found<T, V, I, H>(
    kept: SurfaceState<T, V, I, H>,
    step: RenderStep<Seq<T>>,
    found: SurfaceState<T, V, I, H>,
)
    requires
        is_found(kept, step, found),
        kept.activity == activity_during(step),
    ensures
        kept.is_used_into(found),
        !runs_callers_code(step) ==> found == kept,
        kept.activity is UsingOverlay || kept.activity is Composing ==> found.inverted_ui
            == kept.inverted_ui,
{
    let history = choose|history: Seq<Call<T, V, I, H>>|
        {
            &&& #[trigger] kept.admits_all(history)
            &&& forall|i: int|
                0 <= i < history.len() ==> (#[trigger] history[i]).is_use() && runs_callers_code(
                    step,
                )
            &&& found == kept.after(history)
        };
    assert forall|i: int| 0 <= i < history.len() implies (#[trigger] history[i]).is_use() by {}
    if history.len() > 0 {
        assert(history[0].is_use() && runs_callers_code(step));
    }
    law_use_in_the_middle_of_a_frame(kept, history);
}

/// One exchange of a frame: the surface as it was when `event` answered `step`.
#[verifier::reject_recursive_types(T)]
pub struct Exchange<T, V, I, H> {
    pub state: SurfaceState<T, V, I, H>,
    pub step: RenderStep<Seq<T>>,
    pub event: RenderEvent<T, V>,
}

impl<T, V, I, H> Exchange<T, V, I, H> {
    /// What the surface asks for next.
    pub open spec fn next_step(self, size: PhysicalSize) -> Result<
        RenderStep<Seq<T>>,
        SurfaceError,
    > {
        self.state.next_step(size, self.step, self.event)
    }

    /// What the surface remembers.
    pub open spec fn next_state(self, size: PhysicalSize) -> SurfaceState<T, V, I, H> {
        self.state.next_state(size, self.step, self.event)
    }

    /// `later` is the next exchange of the same frame.
    pub open spec fn leads_to(self, size: PhysicalSize, later: Exchange<T, V, I, H>) -> bool {
        &&& self.next_step(size) == Ok::<RenderStep<Seq<T>>, SurfaceError>(later.step)
        &&& is_found(self.next_state(size), later.step, later.state)
    }
}

/// The exchanges of a frame for a window of this size, from its beginning.
pub open spec fn is_frame<T, V, I, H>(
    size: PhysicalSize,
    frame: Seq<Exchange<T, V, I, H>>,
) -> bool {
    &&& frame.len() > 0
    &&& frame[0].step is Acquire
    &&& forall|i: int|
        0 <= i < frame.len() ==> (#[trigger] frame[i]).state.accepts(frame[i].step, frame[i].event)
    &&& forall|i: int| 0 <= i < frame.len() - 1 ==> #[trigger] is_linked(size, frame, i)
}

/// The exchange at `i` leads to the one after it.
pub open spec fn is_linked<T, V, I, H>(
    size: PhysicalSize,
    frame: Seq<Exchange<T, V, I, H>>,
    i: int,
) -> bool {
    frame[i].leads_to(size, frame[i + 1])
}

/// The frame was presented and is over.
pub open spec fn is_complete<T, V, I, H>(
    size: PhysicalSize,
    frame: Seq<Exchange<T, V, I, H>>,
) -> bool {
    &&& is_frame(size, frame)
    &&& frame.last().next_step(size) == Ok::<RenderStep<Seq<T>>, SurfaceError>(RenderStep::Done)
}

/// How many exchanges it took until the swapchain's texture was at hand.
pub open spec fn attempts<T, V, I, H>(frame: Seq<Exchange<T, V, I, H>>) -> int {
    if frame.len() > 1 && frame[1].step is Reacquire {
        2
    } else if frame.len() > 1 && frame[1].step is Reconfigure {
        3
    } else {
        1
    }
}

/// The surface when drawing began.
pub open spec fn drawing_state<T, V, I, H>(frame: Seq<Exchange<T, V, I, H>>) -> SurfaceState<
    T,
    V,
    I,
    H,
> {
    frame[attempts(frame) - 1].state
}

/// Where the painting stands in a frame.
pub open spec fn paint_index<T, V, I, H>(
    size: PhysicalSize,
    frame: Seq<Exchange<T, V, I, H>>,
) -> int {
    if drawing_state(frame).compose_hook is None {
        attempts(frame) + 1
    } else if drawing_state(frame).lacks_overlay(size) {
        attempts(frame) + 3
    } else {
        attempts(frame) + 2
    }
}

/// Where the submission of Skia's work stands in a frame: behind the painting,
/// the log, where counters are kept, and the textures, where any were shown.
pub open spec fn submit_index<T, V, I, H>(
    size: PhysicalSize,
    frame: Seq<Exchange<T, V, I, H>>,
) -> int {
    let painted = frame[paint_index(size, frame)].state;
    paint_index(size, frame) + 1 + (if painted.ui_perf is Some {
        1int
    } else {
        0
    }) + (if painted.textures.len() > 0 {
        1int
    } else {
        0
    })
}

/// What stands between the painting and the submission of a frame: the log,
/// where counters are kept, and then the textures that were shown, where there
/// are any, just before the submission.
pub open spec fn is_submitted_in_order<T, V, I, H>(
    size: PhysicalSize,
    frame: Seq<Exchange<T, V, I, H>>,
    inverted: bool,
) -> bool {
    let p = paint_index(size, frame);
    let s = submit_index(size, frame);
    let painted = frame[p].state;
    &&& painted.ui_perf is Some ==> frame[p + 1].step is Log
    &&& painted.textures.len() > 0 ==> frame[s - 1].step == (RenderStep::Transition {
        textures: painted.textures,
        inverted,
    })
    &&& frame[s].step == RenderStep::<Seq<T>>::Submit { inverted }
}

/// The exchange at `i` leads to the one after it, and how.
proof fn lemma_linked<T, V, I, H>(size: PhysicalSize, frame: Seq<Exchange<T, V, I, H>>, i: int)
    requires
        is_frame(size, frame),
        0 <= i < frame.len() - 1,
    ensures
        frame[i].state.accepts(frame[i].step, frame[i].event),
        frame[i].next_step(size) == Ok::<RenderStep<Seq<T>>, SurfaceError>(frame[i + 1].step),
        frame[i + 1].state.accepts(frame[i + 1].step, frame[i + 1].event),
        frame[i].next_state(size).is_used_into(frame[i + 1].state),
        !runs_callers_code(frame[i + 1].step) ==> frame[i + 1].state == frame[i].next_state(size),
        activity_during(frame[i + 1].step) is UsingOverlay || activity_during(
            frame[i + 1].step,
        ) is Composing ==> frame[i + 1].state.inverted_ui == frame[i].next_state(size).inverted_ui,
{
    assert(is_linked(size, frame, i));
    lemma_found(frame[i].next_state(size), frame[i + 1].step, frame[i + 1].state);
}

/// A complete frame goes on from each exchange to the next until it is presented.
proof fn lemma_goes_on<T, V, I, H>(
    size: PhysicalSize,
    frame: Seq<Exchange<T, V, I, H>>,
    i: int,
)
    requires
        is_complete(size, frame),
        0 <= i < frame.len(),
    ensures
        frame[i].state.accepts(frame[i].step, frame[i].event),
        frame[i].step is Present <==> i == frame.len() - 1,
        i < frame.len() - 1 ==> {
            let kept = frame[i].next_state(size);
            let later = frame[i + 1];
            &&& frame[i].next_step(size) == Ok::<RenderStep<Seq<T>>, SurfaceError>(later.step)
            &&& kept.is_used_into(later.state)
            &&& !runs_callers_code(later.step) ==> later.state == kept
            &&& activity_during(later.step) is UsingOverlay || activity_during(
                later.step,
            ) is Composing ==> later.state.inverted_ui == kept.inverted_ui
        },
{
    if i < frame.len() - 1 {
        lemma_linked(size, frame, i);
    }
}

/// How a complete frame gets to its painting.
proof fn lemma_until_painting<T, V, I, H>(size: PhysicalSize, frame: Seq<Exchange<T, V, I, H>>)
    requires
        is_complete(size, frame),
    ensures
        ({
            let k = attempts(frame);
            let p = paint_index(size, frame);
            let before = drawing_state(frame);
            &&& k <= p - 1 < p < frame.len()
            &&& frame[k - 1].event is Acquired
            &&& before.compose_hook is None ==> frame[k].step is WrapFrame
            &&& before.compose_hook is Some ==> {
                &&& p == k + 3 ==> frame[k].step == RenderStep::<Seq<T>>::CreateOverlay(
                    OverlayDescriptor::covering(size, before.config.format),
                )
                &&& frame[p - 2].step is TransitionOverlay
                &&& frame[p - 1].step is WrapOverlay
            }
            &&& frame[p].step == RenderStep::<Seq<T>>::Paint {
                age: if before.compose_hook is None || before.lacks_overlay(size)
                    || before.inverted_ui->0.fresh {
                    0
                } else {
                    1
                },
                inverted: before.compose_hook is Some,
            }
            &&& frame[p - 1].next_state(size).ui_perf == frame[0].state.ui_perf
            &&& frame[p].state.ui_perf == frame[0].state.ui_perf
            &&& before.compose_hook is Some ==> (frame[p].state.inverted_ui matches Some(ui)
                && ui.size == size && !ui.fresh)
            &&& before.compose_hook is None && before.inverted_ui is None
                ==> frame[p].state.inverted_ui is None
        }),
{
    let k = attempts(frame);
    let p = paint_index(size, frame);
    lemma_goes_on(size, frame, 0);
    if k == 3 {
        lemma_goes_on(size, frame, 1);
    }
    lemma_goes_on(size, frame, k - 1);
    lemma_goes_on(size, frame, k);
    if drawing_state(frame).compose_hook is Some {
        if p == k + 3 {
            lemma_goes_on(size, frame, k + 1);
        }
        lemma_goes_on(size, frame, p - 2);
        lemma_goes_on(size, frame, p - 1);
    }
    lemma_goes_on(size, frame, p);
}

/// How a complete frame gets from its painting to the submission.
proof fn lemma_until_submission<T, V, I, H>(size: PhysicalSize, frame: Seq<Exchange<T, V, I, H>>)
    requires
        is_complete(size, frame),
    ensures
        ({
            let p = paint_index(size, frame);
            let s = submit_index(size, frame);
            let painting = frame[p];
            &&& p < s < frame.len()
            &&& is_submitted_in_order(size, frame, drawing_state(frame).compose_hook is Some)
            &&& frame[s].state.inverted_ui == painting.state.inverted_ui
            &&& painting.event matches RenderEvent::Painted { draw_us, damage, elapsed_secs }
            &&& frame[s].state.ui_perf == match painting.state.ui_perf {
                Some(perf) => Some(perf.after(draw_us, damage, elapsed_secs)),
                None => None,
            }
        }),
{
    let p = paint_index(size, frame);
    let s = submit_index(size, frame);
    lemma_until_painting(size, frame);
    lemma_goes_on(size, frame, p);
    lemma_goes_on(size, frame, p + 1);
    if s > p + 1 {
        lemma_goes_on(size, frame, p + 2);
    }
}

/// A frame without a hook goes straight into the swapchain: once the texture is
/// at hand, at the second attempt at the latest, it is wrapped, painted as if it
/// held nothing, submitted, announced and presented, each of them once and in
/// this order, and no overlay comes into being.
pub proof fn law_direct_frame<T, V, I, H>(size: PhysicalSize, frame: Seq<Exchange<T, V, I, H>>)
    requires
        is_complete(size, frame),
        drawing_state(frame).compose_hook is None,
    ensures
        ({
            let k = attempts(frame);
            let s = submit_index(size, frame);
            &&& frame.len() == s + 3
            &&& frame[k].step is WrapFrame
            &&& frame[k + 1].step == RenderStep::<Seq<T>>::Paint { age: 0, inverted: false }
            &&& is_submitted_in_order(size, frame, false)
            &&& frame[s + 1].step is Announce
            &&& frame[s + 2].step is Present
            &&& drawing_state(frame).inverted_ui is None ==> frame.last().next_state(
                size,
            ).inverted_ui is None
        }),
{
    let s = submit_index(size, frame);
    lemma_until_painting(size, frame);
    lemma_until_submission(size, frame);
    lemma_goes_on(size, frame, s);
    lemma_goes_on(size, frame, s + 1);
    lemma_goes_on(size, frame, s + 2);
}

/// A frame with a hook never touches the swapchain but through the hook: once
/// the texture is at hand, the overlay is created where there is none of the
/// window's size, and then made a color target, wrapped, painted, submitted,
/// offered for a dump, composed, announced and presented, each of them once and
/// in this order.
pub proof fn law_inverted_frame<T, V, I, H>(size: PhysicalSize, frame: Seq<Exchange<T, V, I, H>>)
    requires
        is_complete(size, frame),
        drawing_state(frame).compose_hook is Some,
    ensures
        ({
            let k = attempts(frame);
            let p = paint_index(size, frame);
            let s = submit_index(size, frame);
            &&& frame.len() == s + 5
            &&& p == k + 3 ==> frame[k].step is CreateOverlay
            &&& frame[p - 2].step is TransitionOverlay
            &&& frame[p - 1].step is WrapOverlay
            &&& frame[p].step matches RenderStep::Paint { inverted, .. } && inverted
            &&& is_submitted_in_order(size, frame, true)
            &&& frame[s + 1].step is OfferDump
            &&& frame[s + 2].step is Compose
            &&& frame[s + 3].step is Announce
            &&& frame[s + 4].step is Present
        }),
{
    let s = submit_index(size, frame);
    lemma_until_painting(size, frame);
    lemma_until_submission(size, frame);
    lemma_goes_on(size, frame, s);
    lemma_goes_on(size, frame, s + 1);
    lemma_goes_on(size, frame, s + 2);
    lemma_goes_on(size, frame, s + 3);
    lemma_goes_on(size, frame, s + 4);
}

/// Where the hook composes the window in a frame, if there is a hook.
pub open spec fn compose_index<T, V, I, H>(
    size: PhysicalSize,
    frame: Seq<Exchange<T, V, I, H>>,
) -> int {
    submit_index(size, frame) + 2
}

/// When the hook composes the window, the overlay exists, is of the window's
/// size and has been painted.
pub proof fn law_overlay_is_painted_when_composed<T, V, I, H>(
    size: PhysicalSize,
    frame: Seq<Exchange<T, V, I, H>>,
)
    requires
        is_complete(size, frame),
        drawing_state(frame).compose_hook is Some,
    ensures
        ({
            let composing = frame[compose_index(size, frame)];
            &&& composing.step is Compose
            &&& composing.state.inverted_ui matches Some(ui) && ui.size == size && !ui.fresh
        }),
{
    let s = submit_index(size, frame);
    law_inverted_frame(size, frame);
    lemma_until_painting(size, frame);
    lemma_until_submission(size, frame);
    lemma_goes_on(size, frame, s);
    lemma_goes_on(size, frame, s + 1);
}

/// An overlay is painted all over at first and then only where the UI changed:
/// the painting is told that there is no content if the overlay was created in
/// this frame or was never painted before, and otherwise that the content is one
/// frame old. Once the hook has composed, the overlay counts as painted, and so
/// it does after the frame, unless it went with a hook that was removed
/// meanwhile.
pub proof fn law_overlay_age<T, V, I, H>(size: PhysicalSize, frame: Seq<Exchange<T, V, I, H>>)
    requires
        is_complete(size, frame),
        drawing_state(frame).compose_hook is Some,
    ensures
        ({
            let before = drawing_state(frame);
            frame[paint_index(size, frame)].step == RenderStep::<Seq<T>>::Paint {
                age: if before.lacks_overlay(size) || before.inverted_ui->0.fresh {
                    0
                } else {
                    1
                },
                inverted: true,
            }
        }),
        ({
            let composed = frame[compose_index(size, frame)].next_state(size);
            let after = frame.last().next_state(size);
            &&& composed.inverted_ui matches Some(ui) && ui.size == size && !ui.fresh
            &&& after.inverted_ui == composed.inverted_ui || after.inverted_ui is None
        }),
{
    let s = submit_index(size, frame);
    lemma_until_painting(size, frame);
    law_inverted_frame(size, frame);
    law_overlay_is_painted_when_composed(size, frame);
    lemma_goes_on(size, frame, s + 2);
    lemma_goes_on(size, frame, s + 3);
    lemma_goes_on(size, frame, s + 4);
}

/// Of two frames of an inverted window, with the overlay kept in between, the
/// second paints only what changed since the first.
pub proof fn law_second_frame_is_partial<T, V, I, H>(
    size: PhysicalSize,
    first: Seq<Exchange<T, V, I, H>>,
    second: Seq<Exchange<T, V, I, H>>,
)
    requires
        is_complete(size, first),
        is_complete(size, second),
        drawing_state(first).compose_hook is Some,
        drawing_state(second).compose_hook is Some,
        drawing_state(second).inverted_ui is Some,
        drawing_state(second).inverted_ui == first.last().next_state(size).inverted_ui,
    ensures
        second[paint_index(size, second)].step == (RenderStep::<Seq<T>>::Paint {
            age: 1,
            inverted: true,
        }),
{
    law_overlay_age(size, first);
    law_overlay_age(size, second);
}

/// The first frame of an inverted window is painted all over, at whatever size:
/// neither a surface that has not rendered anything nor one whose hook was
/// removed has an overlay, so that one is created and told to have no content.
pub proof fn law_first_inverted_frame_is_full<T, V, I, H>(
    state: SurfaceState<T, V, I, H>,
    config: SurfaceConfiguration,
    backend: Backend,
    count: bool,
    hook: H,
    size: PhysicalSize,
    frame: Seq<Exchange<T, V, I, H>>,
)
    requires
        is_complete(size, frame),
        ({
            let removed = state.with_compose_hook(None).with_compose_hook(Some(hook));
            let new = SurfaceState::<T, V, I, H>::initial(config, backend, count).with_compose_hook(
                Some(hook),
            );
            let before = drawing_state(frame);
            ||| before.inverted_ui == removed.inverted_ui && before.compose_hook
                == removed.compose_hook
            ||| before.inverted_ui == new.inverted_ui && before.compose_hook == new.compose_hook
        }),
    ensures
        frame[attempts(frame)].step == RenderStep::<Seq<T>>::CreateOverlay(
            OverlayDescriptor::covering(size, drawing_state(frame).config.format),
        ),
        frame[paint_index(size, frame)].step == (RenderStep::<Seq<T>>::Paint {
            age: 0,
            inverted: true,
        }),
{
    lemma_until_painting(size, frame);
}

/// A complete frame is recorded once, with what its painting reported; before
/// and after that its counters stay as they are.
pub proof fn law_frame_is_recorded_once<T, V, I, H>(
    size: PhysicalSize,
    frame: Seq<Exchange<T, V, I, H>>,
)
    requires
        is_complete(size, frame),
    ensures
        ({
            let painting = frame[paint_index(size, frame)];
            &&& painting.event matches RenderEvent::Painted { draw_us, damage, elapsed_secs }
            &&& frame.last().next_state(size).ui_perf == match frame[0].state.ui_perf {
                Some(perf) => Some(perf.after(draw_us, damage, elapsed_secs)),
                None => None,
            }
        }),
{
    let s = submit_index(size, frame);
    lemma_until_painting(size, frame);
    lemma_until_submission(size, frame);
    lemma_goes_on(size, frame, s);
    lemma_goes_on(size, frame, s + 1);
    lemma_goes_on(size, frame, s + 2);
    if drawing_state(frame).compose_hook is None {
        law_direct_frame(size, frame);
    } else {
        law_inverted_frame(size, frame);
        lemma_goes_on(size, frame, s + 3);
        lemma_goes_on(size, frame, s + 4);
    }
}

/// Every frame comes to an end: there are at most fourteen exchanges in it,
/// whatever the answers are.
pub proof fn law_frame_ends<T, V, I, H>(size: PhysicalSize, frame: Seq<Exchange<T, V, I, H>>)
    requires
        is_frame(size, frame),
    ensures
        frame.len() <= 14,
{
    lemma_progress(size, frame, frame.len() - 1);
}

/// How many exchanges are left at most before the frame is over.
pub open spec fn exchanges_left<T>(step: RenderStep<Seq<T>>) -> nat {
    match step {
        RenderStep::Acquire => 14,
        RenderStep::Reconfigure(_) => 13,
        RenderStep::Reacquire(_) => 12,
        RenderStep::CreateOverlay(_) => 11,
        RenderStep::TransitionOverlay => 10,
        RenderStep::WrapOverlay => 9,
        RenderStep::WrapFrame => 9,
        RenderStep::Paint { .. } => 8,
        RenderStep::Log { .. } => 7,
        RenderStep::Transition { .. } => 6,
        RenderStep::Submit { .. } => 5,
        RenderStep::OfferDump => 4,
        RenderStep::Compose => 3,
        RenderStep::Announce => 2,
        RenderStep::Present => 1,
        RenderStep::Done => 0,
    }
}

/// Each exchange brings the end of the frame nearer.
proof fn lemma_progress<T, V, I, H>(
    size: PhysicalSize,
    frame: Seq<Exchange<T, V, I, H>>,
    i: int,
)
    requires
        is_frame(size, frame),
        0 <= i < frame.len(),
    ensures
        1 <= exchanges_left(frame[i].step) <= 14 - i,
    decreases i,
{
    if i > 0 {
        lemma_progress(size, frame, i - 1);
        lemma_linked(size, frame, i - 1);
    }
    assert(frame[i].state.accepts(frame[i].step, frame[i].event));
}

/// Of two exchanges of a frame, the earlier one is further from its end.
proof fn lemma_earlier_step<T, V, I, H>(
    size: PhysicalSize,
    frame: Seq<Exchange<T, V, I, H>>,
    i: int,
    j: int,
)
    requires
        is_frame(size, frame),
        0 <= i < j < frame.len(),
    ensures
        exchanges_left(frame[i].step) > exchanges_left(frame[j].step),
    decreases j,
{
    assert(frame[j - 1].state.accepts(frame[j - 1].step, frame[j - 1].event));
    lemma_linked(size, frame, j - 1);
    if i < j - 1 {
        lemma_earlier_step(size, frame, i, j - 1);
    }
}

/// Until it is painted, a frame changes nothing but what it is busy with: only an
/// overlay may have been created where there was none of the window's size, and
/// the frames of a lost swapchain are forgotten.
proof fn lemma_before_painting<T, V, I, H>(
    size: PhysicalSize,
    frame: Seq<Exchange<T, V, I, H>>,
    i: int,
)
    requires
        is_frame(size, frame),
        0 <= i < frame.len(),
        exchanges_left(frame[i].step) >= 9,
    ensures
        ({
            let before = frame[0].state;
            let state = frame[i].state;
            &&& state == SurfaceState {
                inverted_ui: state.inverted_ui,
                frames_since_configure: state.frames_since_configure,
                activity: state.activity,
                ..before
            }
            &&& state.inverted_ui == before.inverted_ui || (before.lacks_overlay(size)
                && state.inverted_ui is Some && state.inverted_ui->0.fresh
                && state.inverted_ui->0.size == size)
            &&& frame[i].step is CreateOverlay ==> before.lacks_overlay(size)
            &&& state.frames_since_configure == before.frames_since_configure
                || state.frames_since_configure == 0
        }),
    decreases i,
{
    if i > 0 {
        lemma_earlier_step(size, frame, i - 1, i);
        lemma_before_painting(size, frame, i - 1);
        lemma_linked(size, frame, i - 1);
    }
}

/// A frame that fails was neither painted nor presented, and leaves the surface
/// as it was, with the textures that wait to be submitted, the images, the
/// counters and the hook. Only an overlay may have been created, and the frames
/// of a lost swapchain are forgotten. An overlay without content before the
/// frame is still to be painted all over.
pub proof fn law_failed_frame<T, V, I, H>(
    size: PhysicalSize,
    frame: Seq<Exchange<T, V, I, H>>,
    i: int,
)
    requires
        is_frame(size, frame),
        frame.last().next_step(size) is Err,
        0 <= i < frame.len(),
    ensures
        !(frame[i].step is Paint),
        !(frame[i].step is Present),
        ({
            let before = frame[0].state;
            let after = frame.last().next_state(size);
            &&& after.textures == before.textures
            &&& after == SurfaceState {
                inverted_ui: after.inverted_ui,
                frames_since_configure: after.frames_since_configure,
                ..before
            }
            &&& after.inverted_ui == before.inverted_ui || (before.lacks_overlay(size)
                && after.inverted_ui is Some && after.inverted_ui->0.fresh)
            &&& after.frames_since_configure == before.frames_since_configure
                || after.frames_since_configure == 0
            &&& before.lacks_overlay(size) || before.inverted_ui->0.fresh ==> after.lacks_overlay(
                size,
            ) || after.inverted_ui->0.fresh
        }),
{
    let last = frame.len() - 1;
    assert(frame[last].state.accepts(frame[last].step, frame[last].event));
    if i < last {
        lemma_earlier_step(size, frame, i, last);
    }
    lemma_before_painting(size, frame, last);
    assert(frame[0].state.accepts(frame[0].step, frame[0].event));
}

/// A hook that replaces another keeps the overlay and all that was painted.
pub proof fn law_replaced_hook_keeps_overlay<T, V, I, H>(
    state: SurfaceState<T, V, I, H>,
    hook: H,
)
    ensures
        state.with_compose_hook(Some(hook)).inverted_ui == state.inverted_ui,
{
}

/// The overlay that is created for a window of the size that the swapchain has
/// covers the swapchain exactly, in its format. Only where a side of the window
/// is empty it cannot.
pub proof fn law_overlay_covers_target<T, V, I, H>(state: SurfaceState<T, V, I, H>)
    requires
        state.compose_hook is Some,
        state.lacks_overlay(state.config.size()),
        state.config.width > 0,
        state.config.height > 0,
    ensures
        state.first_drawing_step(state.config.size()) matches RenderStep::CreateOverlay(overlay)
            && overlay.width == state.config.width && overlay.height == state.config.height
            && overlay.format == state.config.format,
{
}

/// A change of size goes its course: where the size did not change, nothing is
/// done; where it did, Skia's work is flushed, then the swapchain is configured,
/// and that is all. The surface goes by the new size from the flush on.
pub proof fn law_resize_course<T, V, I, H>(state: SurfaceState<T, V, I, H>, size: PhysicalSize)
    ensures
        state.next_resize_state(size, ResizeStep::Begin) == state,
        state.config.size() == size ==> state.next_resize_step(size, ResizeStep::Begin)
            == ResizeStep::Done,
        state.config.size() != size ==> {
            let flushed = state.next_resize_state(size, ResizeStep::Flush);
            let configure = state.next_resize_step(size, ResizeStep::Flush);
            &&& state.next_resize_step(size, ResizeStep::Begin) == ResizeStep::Flush
            &&& configure == ResizeStep::Configure(state.config.resized(size))
            &&& flushed == state.with_size(size)
            &&& flushed.next_resize_step(size, configure) == ResizeStep::Done
            &&& flushed.next_resize_state(size, configure) == flushed
        },
{
}

/// The swapchain is never configured for another size but right after a flush,
/// and never in the middle of a frame.
pub proof fn law_flushed_before_configured<T, V, I, H>(
    state: SurfaceState<T, V, I, H>,
    size: PhysicalSize,
    step: ResizeStep,
)
    requires
        state.accepts_resize(size, step),
        state.next_resize_step(size, step) is Configure,
    ensures
        step is Flush,
        state.activity is Idle,
        state.next_resize_step(size, step) == ResizeStep::Configure(
            state.next_resize_state(size, step).config,
        ),
{
}

/// Telling a surface its size twice is telling it once: the second time, nothing
/// is configured and nothing is forgotten.
pub proof fn law_same_size_is_ignored<T, V, I, H>(
    state: SurfaceState<T, V, I, H>,
    size: PhysicalSize,
)
    ensures
        state.with_size(size).config.size() == size,
        state.with_size(size).with_size(size) == state.with_size(size),
        state.with_size(state.config.size()) == state,
{
}

/// A change of size forgets every image and every frame of the old swapchain and
/// nothing else; an overlay of the old size is replaced by the next frame.
pub proof fn law_changed_size<T, V, I, H>(
    state: SurfaceState<T, V, I, H>,
    size: PhysicalSize,
)
    requires
        size != state.config.size(),
    ensures
        ({
            let resized = state.with_size(size);
            &&& resized.images == Map::<T, I>::empty()
            &&& resized.frames_since_configure == 0
            &&& resized.config.format == state.config.format
            &&& resized.textures == state.textures
            &&& resized.ui_perf == state.ui_perf
            &&& resized.compose_hook == state.compose_hook
            &&& resized.inverted_ui == state.inverted_ui
            &&& (state.inverted_ui matches Some(ui) ==> ui.size == state.config.size())
                ==> resized.lacks_overlay(size)
        }),
{
}

/// The image of a texture, once made, is there for every later import: whatever
/// calls are made on the surface, it stays the same, as long as the window does
/// not change its size.
pub proof fn law_image_is_made_once<T, V, I, H>(
    state: SurfaceState<T, V, I, H>,
    texture: T,
    history: Seq<Call<T, V, I, H>>,
)
    requires
        state.images.contains_key(texture),
        state.admits_all(history),
        forall|i: int|
            0 <= i < history.len() ==> (#[trigger] history[i]).keeps_size(state.config.size()),
    ensures
        state.after(history).images.contains_key(texture),
        state.after(history).images[texture] == state.images[texture],
        state.after(history).config.size() == state.config.size(),
    decreases history.len(),
{
    if history.len() > 0 {
        let earlier = history.drop_last();
        assert forall|i: int| 0 <= i < earlier.len() implies (#[trigger] earlier[i]).keeps_size(
            state.config.size(),
        ) by {
            assert(history[i].keeps_size(state.config.size()));
        }
        law_image_is_made_once(state, texture, earlier);
        assert(history[history.len() - 1].keeps_size(state.config.size()));
    }
}

/// An image that was made of a texture is the one that is found for it.
pub proof fn law_made_image_is_found<T, V, I, H>(
    state: SurfaceState<T, V, I, H>,
    texture: T,
    image: I,
)
    ensures
        ({
            let made = state.with_texture_shown(texture).with_image(texture, Some(image));
            made.images.contains_key(texture) && made.images[texture] == image
        }),
{
}

/// The overlay that there is after these calls, if there is one, was wrapped for
/// painting since it was created.
pub open spec fn overlay_was_painted<T, V, I, H>(history: Seq<Call<T, V, I, H>>) -> bool
    decreases history.len(),
{
    history.len() > 0 && match history.last() {
        Call::Render(_, RenderStep::WrapOverlay, RenderEvent::Wrapped) => true,
        Call::Render(_, _, RenderEvent::OverlayCreated { .. }) => false,
        Call::SetComposeHook(None) => false,
        _ => overlay_was_painted(history.drop_last()),
    }
}

/// Whatever calls are made on a surface that starts without an overlay, the
/// painting is told that the overlay has no content exactly if that overlay was
/// never painted, and otherwise that its content is one frame old.
pub proof fn law_age_tells_whether_overlay_was_painted<T, V, I, H>(
    start: SurfaceState<T, V, I, H>,
    history: Seq<Call<T, V, I, H>>,
    size: PhysicalSize,
)
    requires
        start.inverted_ui is None,
        start.admits_all(history),
        start.after(history).admits(
            Call::Render(size, RenderStep::WrapOverlay, RenderEvent::Wrapped),
        ),
    ensures
        start.after(history).next_step(size, RenderStep::WrapOverlay, RenderEvent::Wrapped) == Ok::<
            RenderStep<Seq<T>>,
            SurfaceError,
        >(
            RenderStep::Paint {
                age: if overlay_was_painted(history) {
                    1
                } else {
                    0
                },
                inverted: true,
            },
        ),
{
    lemma_fresh_until_painted(start, history);
}

/// An overlay is fresh until it is painted.
proof fn lemma_fresh_until_painted<T, V, I, H>(
    start: SurfaceState<T, V, I, H>,
    history: Seq<Call<T, V, I, H>>,
)
    requires
        start.inverted_ui is None,
        start.admits_all(history),
    ensures
        start.after(history).inverted_ui matches Some(ui) ==> ui.fresh == !overlay_was_painted(
            history,
        ),
    decreases history.len(),
{
    if history.len() > 0 {
        lemma_fresh_until_painted(start, history.drop_last());
    }
}

/// A texture of which no image could be made is not remembered as one: the next
/// import tries again.
pub proof fn law_failed_import_is_retried<T, V, I, H>(
    state: SurfaceState<T, V, I, H>,
    texture: T,
)
    requires
        !state.images.contains_key(texture),
    ensures
        !state.with_texture_shown(texture).with_image(texture, None).images.contains_key(texture),
{
}

/// The textures that the UI has shown in a history since some were last handed
/// out to be made ready, in the order in which they were shown and as often. The
/// history is one of a surface that starts as `start`.
pub open spec fn shown_since_transition<T, V, I, H>(
    start: SurfaceState<T, V, I, H>,
    history: Seq<Call<T, V, I, H>>,
) -> Seq<T>
    decreases history.len(),
{
    if history.len() == 0 {
        Seq::empty()
    } else {
        let earlier = shown_since_transition(start, history.drop_last());
        match history.last() {
            Call::Show(texture) => earlier.push(texture),
            Call::Render(size, step, event) => {
                let next = start.after(history.drop_last()).next_step(size, step, event);
                if next matches Ok(next) && next is Transition {
                    Seq::empty()
                } else {
                    earlier
                }
            },
            _ => earlier,
        }
    }
}

/// Every texture that the UI has shown, whatever else was called meanwhile, is
/// handed out to be made ready before Skia's work is submitted, in the order in
/// which it was shown and as often. Nothing is handed out where nothing was
/// shown, and then the work is submitted at once; none is left over.
pub proof fn law_shown_textures_are_submitted<T, V, I, H>(
    start: SurfaceState<T, V, I, H>,
    history: Seq<Call<T, V, I, H>>,
    size: PhysicalSize,
    step: RenderStep<Seq<T>>,
    event: RenderEvent<T, V>,
)
    requires
        start.textures == Seq::<T>::empty(),
        start.admits_all(history),
        start.after(history).admits(Call::Render(size, step, event)),
    ensures
        ({
            let state = start.after(history);
            let shown = shown_since_transition(start, history);
            let next = state.next_step(size, step, event);
            &&& next matches Ok(RenderStep::Transition { textures, .. }) ==> {
                &&& textures == shown
                &&& shown.len() > 0
                &&& state.next_state(size, step, event).textures == Seq::<T>::empty()
            }
            &&& next matches Ok(RenderStep::Submit { .. }) ==> step is Transition || shown.len()
                == 0
            &&& step is Log || (step is Paint && state.ui_perf is None) ==> {
                ||| next matches Ok(RenderStep::Transition { .. })
                ||| next matches Ok(RenderStep::Submit { .. })
            }
        }),
{
    lemma_shown_textures_wait(start, history);
}

/// The textures that were shown since some were last handed out are those that
/// wait.
proof fn lemma_shown_textures_wait<T, V, I, H>(
    start: SurfaceState<T, V, I, H>,
    history: Seq<Call<T, V, I, H>>,
)
    requires
        start.textures == Seq::<T>::empty(),
    ensures
        start.after(history).textures == shown_since_transition(start, history),
    decreases history.len(),
{
    if history.len() > 0 {
        lemma_shown_textures_wait(start, history.drop_last());
    }
}

/// The frames are counted from one configuration of the swapchain to the next: a
/// frame that is presented counts, and a swapchain that is configured once more
/// counts anew.
pub proof fn law_frames_are_counted<T, V, I, H>(
    size: PhysicalSize,
    exchange: Exchange<T, V, I, H>,
)
    requires
        exchange.state.accepts(exchange.step, exchange.event),
        exchange.state.frames_since_configure < u32::MAX,
    ensures
        ({
            let frames = exchange.next_state(size).frames_since_configure;
            if exchange.step is Present {
                frames == exchange.state.frames_since_configure + 1
            } else if exchange.step is Reconfigure {
                frames == 0
            } else {
                frames == exchange.state.frames_since_configure
            }
        }),
{
}

/// A frame fails where the swapchain failed a second time or a texture could not
/// be wrapped, and nowhere else; the error tells which it was.
pub proof fn law_where_a_frame_fails<T, V, I, H>(
    size: PhysicalSize,
    frame: Seq<Exchange<T, V, I, H>>,
    error: SurfaceError,
)
    requires
        is_frame(size, frame),
        frame.last().next_step(size) == Err::<RenderStep<Seq<T>>, SurfaceError>(error),
    ensures
        ({
            let last = frame.last();
            match error {
                SurfaceError::AcquireAfterTimeout(reason) => last.step == RenderStep::<
                    Seq<T>,
                >::Reacquire(RetryCause::Timeout) && last.event == RenderEvent::<
                    T,
                    V,
                >::AcquireFailed(reason),
                SurfaceError::AcquireAfterError(reason) => last.step == RenderStep::<
                    Seq<T>,
                >::Reacquire(RetryCause::Reconfigured) && last.event == RenderEvent::<
                    T,
                    V,
                >::AcquireFailed(reason),
                SurfaceError::WrapOverlay => last.step is WrapOverlay && last.event is WrapFailed,
                SurfaceError::WrapFrame => last.step is WrapFrame && last.event is WrapFailed,
                _ => false,
            }
        }),
{
    let last = frame.len() - 1;
    assert(frame[last].state.accepts(frame[last].step, frame[last].event));
}

/// A frame goes on drawing with the texture that it was handed, at whichever
/// attempt that was: the frame that got one can still fail only where it cannot
/// be wrapped.
pub proof fn law_frame_with_texture_is_drawn<T, V, I, H>(
    size: PhysicalSize,
    frame: Seq<Exchange<T, V, I, H>>,
    i: int,
)
    requires
        is_frame(size, frame),
        0 <= i < frame.len(),
        frame[i].event is Acquired,
    ensures
        ({
            &&& frame[i].next_step(size) matches Ok(drawing)
            &&& frame[i].state.compose_hook is None ==> drawing is WrapFrame
            &&& frame[i].state.compose_hook is Some ==> drawing is CreateOverlay
                || drawing is TransitionOverlay
        }),
        frame.last().next_step(size) is Err ==> frame.last().event is WrapFailed,
{
    let last = frame.len() - 1;
    assert(frame[i].state.accepts(frame[i].step, frame[i].event));
    law_acquired_texture_is_drawn_on(frame[i].state, size, frame[i].step);
    assert(frame[last].state.accepts(frame[last].step, frame[last].event));
    if i < last {
        lemma_linked(size, frame, i);
        if i + 1 < last {
            lemma_earlier_step(size, frame, i + 1, last);
        }
    }
}

/// The overlay that is made a color target in a frame is the one that the frame
/// works with from then on until it was composed.
proof fn lemma_overlay_in_use<T, V, I, H>(
    size: PhysicalSize,
    frame: Seq<Exchange<T, V, I, H>>,
    i: int,
    j: int,
)
    requires
        is_frame(size, frame),
        0 <= i < j < frame.len(),
        frame[i + 1].step is TransitionOverlay,
        frame[i].next_state(size).inverted_ui is Some,
        activity_during(frame[j].step) is UsingOverlay || activity_during(
            frame[j].step,
        ) is Composing,
    ensures
        frame[j].state.inverted_ui is Some,
        frame[j].state.inverted_ui->0.texture == frame[i].next_state(size).inverted_ui->0.texture,
        frame[j].state.inverted_ui->0.view == frame[i].next_state(size).inverted_ui->0.view,
    decreases j,
{
    lemma_linked(size, frame, j - 1);
    if i + 1 < j {
        if i + 1 < j - 1 {
            lemma_earlier_step(size, frame, i + 1, j - 1);
        }
        lemma_overlay_in_use(size, frame, i, j - 1);
    }
}

/// What the hook composes is what the frame painted: the overlay that was created
/// in this frame, with the texture and the view that were reported for it, and
/// where none was created, the overlay that was there when drawing began.
pub proof fn law_composed_overlay_is_that_of_the_frame<T, V, I, H>(
    size: PhysicalSize,
    frame: Seq<Exchange<T, V, I, H>>,
    i: int,
    j: int,
)
    requires
        is_frame(size, frame),
        0 <= i < j < frame.len(),
        frame[j].step is Compose,
    ensures
        frame[i].event matches RenderEvent::OverlayCreated { texture, view } ==> {
            &&& frame[j].state.inverted_ui is Some
            &&& frame[j].state.inverted_ui->0.texture == texture
            &&& frame[j].state.inverted_ui->0.view == view
            &&& frame[j].state.ui_view() == Some(view)
        },
        frame[i].event is Acquired && !(frame[i + 1].step is CreateOverlay) ==> {
            &&& frame[i].state.inverted_ui is Some
            &&& frame[j].state.inverted_ui is Some
            &&& frame[j].state.inverted_ui->0.texture == frame[i].state.inverted_ui->0.texture
            &&& frame[j].state.inverted_ui->0.view == frame[i].state.inverted_ui->0.view
        },
{
    lemma_linked(size, frame, i);
    if frame[i].event is OverlayCreated {
        lemma_overlay_in_use(size, frame, i, j);
    }
    if frame[i].event is Acquired && !(frame[i + 1].step is CreateOverlay) {
        if frame[i + 1].step is WrapFrame {
            lemma_direct_until_announced(size, frame, i + 1, j);
        } else {
            lemma_overlay_in_use(size, frame, i, j);
        }
    }
}

/// A frame that goes straight into the swapchain has no use for an overlay.
proof fn lemma_direct_until_announced<T, V, I, H>(
    size: PhysicalSize,
    frame: Seq<Exchange<T, V, I, H>>,
    i: int,
    j: int,
)
    requires
        is_frame(size, frame),
        0 <= i <= j < frame.len(),
        frame[i].step is WrapFrame,
    ensures
        activity_during(frame[j].step) is Drawing,
    decreases j,
{
    if i < j {
        lemma_direct_until_announced(size, frame, i, j - 1);
        lemma_linked(size, frame, j - 1);
        assert(frame[j].state.accepts(frame[j].step, frame[j].event));
        if i < j - 1 {
            lemma_earlier_step(size, frame, i, j - 1);
        }
    }
}

/// No call takes an overlay away but the one that removes the hook: an overlay
/// that was there is there after any other calls, as is the hook.
pub proof fn law_only_hook_removal_takes_overlay<T, V, I, H>(
    start: SurfaceState<T, V, I, H>,
    history: Seq<Call<T, V, I, H>>,
)
    requires
        forall|i: int|
            0 <= i < history.len() ==> #[trigger] history[i] != Call::<T, V, I, H>::SetComposeHook(
                None,
            ),
    ensures
        start.inverted_ui is Some ==> start.after(history).inverted_ui is Some,
        start.compose_hook is Some ==> start.after(history).compose_hook is Some,
    decreases history.len(),
{
    if history.len() > 0 {
        let earlier = history.drop_last();
        assert forall|i: int| 0 <= i < earlier.len() implies #[trigger] earlier[i] != Call::<
            T,
            V,
            I,
            H,
        >::SetComposeHook(None) by {
            assert(earlier[i] == history[i]);
        }
        law_only_hook_removal_takes_overlay(start, earlier);
        assert(history[history.len() - 1] != Call::<T, V, I, H>::SetComposeHook(None));
    }
}

/// The call neither removes the hook nor reports an overlay that was created.
pub open spec fn spares_overlay<T, V, I, H>(call: Call<T, V, I, H>) -> bool {
    match call {
        Call::SetComposeHook(hook) => hook is Some,
        Call::Render(_, _, event) => !(event is OverlayCreated),
        _ => true,
    }
}

/// An overlay that was painted is found again, whatever calls were made since, as
/// long as the hook was not removed and no other overlay created: the next frame
/// of the same size makes it a color target at once, and is told to paint only
/// what changed.
pub proof fn law_overlay_is_found_again<T, V, I, H>(
    start: SurfaceState<T, V, I, H>,
    history: Seq<Call<T, V, I, H>>,
    size: PhysicalSize,
)
    requires
        start.compose_hook is Some,
        start.inverted_ui is Some,
        start.inverted_ui->0.size.width == size.width,
        start.inverted_ui->0.size.height == size.height,
        !start.inverted_ui->0.fresh,
        forall|i: int| 0 <= i < history.len() ==> spares_overlay(#[trigger] history[i]),
    ensures
        start.after(history).compose_hook is Some,
        start.after(history).inverted_ui == start.inverted_ui,
        start.after(history).next_step(size, RenderStep::Acquire, RenderEvent::Acquired) == Ok::<
            RenderStep<Seq<T>>,
            SurfaceError,
        >(RenderStep::TransitionOverlay),
        start.after(history).next_step(size, RenderStep::WrapOverlay, RenderEvent::Wrapped) == Ok::<
            RenderStep<Seq<T>>,
            SurfaceError,
        >(RenderStep::Paint { age: 1, inverted: true }),
    decreases history.len(),
{
    if history.len() > 0 {
        let earlier = history.drop_last();
        assert forall|i: int| 0 <= i < earlier.len() implies spares_overlay(
            #[trigger] earlier[i],
        ) by {
            assert(earlier[i] == history[i]);
        }
        law_overlay_is_found_again(start, earlier, size);
        assert(spares_overlay(history[history.len() - 1]));
    }
}

/// The overlay outlives the frame: after a frame of an inverted window it is the
/// one that was composed, unless the caller removed the hook while the
/// presentation was announced, which is when `calls` were made.
pub proof fn law_overlay_outlives_the_frame<T, V, I, H>(
    size: PhysicalSize,
    frame: Seq<Exchange<T, V, I, H>>,
    j: int,
    calls: Seq<Call<T, V, I, H>>,
)
    requires
        is_complete(size, frame),
        0 <= j < frame.len() - 1,
        frame[j].step is Compose,
        frame[j + 1].state == frame[j].next_state(size).after(calls),
        forall|i: int| 0 <= i < calls.len() ==> (#[trigger] calls[i]).is_use() && spares_overlay(
            calls[i],
        ),
    ensures
        frame[j].state.inverted_ui is Some,
        frame.last().next_state(size).inverted_ui == frame[j].state.inverted_ui,
{
    let s = submit_index(size, frame);
    if drawing_state(frame).compose_hook is None {
        lemma_until_painting(size, frame);
        lemma_direct_until_announced(size, frame, attempts(frame), j);
    }
    law_overlay_is_painted_when_composed(size, frame);
    law_inverted_frame(size, frame);
    if j < s + 2 {
        lemma_earlier_step(size, frame, j, s + 2);
    } else if s + 2 < j {
        lemma_earlier_step(size, frame, s + 2, j);
    }
    lemma_goes_on(size, frame, s + 2);
    lemma_spared_overlay(frame[j].next_state(size), calls);
    lemma_goes_on(size, frame, s + 3);
    lemma_goes_on(size, frame, s + 4);
}

/// Calls in the middle of a frame that spare the overlay leave it as it is.
proof fn lemma_spared_overlay<T, V, I, H>(
    state: SurfaceState<T, V, I, H>,
    calls: Seq<Call<T, V, I, H>>,
)
    requires
        forall|i: int| 0 <= i < calls.len() ==> (#[trigger] calls[i]).is_use() && spares_overlay(
            calls[i],
        ),
    ensures
        state.after(calls).inverted_ui == state.inverted_ui,
    decreases calls.len(),
{
    if calls.len() > 0 {
        let earlier = calls.drop_last();
        assert forall|i: int| 0 <= i < earlier.len() implies (#[trigger] earlier[i]).is_use()
            && spares_overlay(earlier[i]) by {
            assert(earlier[i] == calls[i]);
        }
        lemma_spared_overlay(state, earlier);
        assert(calls[calls.len() - 1].is_use());
    }
}

/// The frame after a frame of an inverted window of the same size works with the
/// same overlay, unless the hook was removed or another overlay created meanwhile:
/// none is created in it, its painting is told to paint only what changed, and
/// the hook composes the same texture through the same view. `calls` were made
/// while the first frame was announced, and `between` between the two frames.
pub proof fn law_next_frame_reuses_the_overlay<T, V, I, H>(
    size: PhysicalSize,
    first: Seq<Exchange<T, V, I, H>>,
    j: int,
    calls: Seq<Call<T, V, I, H>>,
    between: Seq<Call<T, V, I, H>>,
    second: Seq<Exchange<T, V, I, H>>,
    i: int,
)
    requires
        is_complete(size, first),
        0 <= j < first.len() - 1,
        first[j].step is Compose,
        first[j + 1].state == first[j].next_state(size).after(calls),
        forall|n: int| 0 <= n < calls.len() ==> (#[trigger] calls[n]).is_use() && spares_overlay(
            calls[n],
        ),
        forall|n: int| 0 <= n < between.len() ==> spares_overlay(#[trigger] between[n]),
        first.last().next_state(size).consistent(),
        is_complete(size, second),
        second[0].state == first.last().next_state(size).after(between),
        0 <= i < second.len(),
    ensures
        !(second[i].step is CreateOverlay),
        !(second[i].step is WrapFrame),
        second[i].step is Paint ==> second[i].step == (RenderStep::<Seq<T>>::Paint {
            age: 1,
            inverted: true,
        }),
        second[i].step is Compose ==> {
            &&& second[i].state.inverted_ui is Some
            &&& second[i].state.inverted_ui->0.texture == first[j].state.inverted_ui->0.texture
            &&& second[i].state.inverted_ui->0.view == first[j].state.inverted_ui->0.view
        },
{
    let after = first.last().next_state(size);
    let s = submit_index(size, first);
    law_overlay_outlives_the_frame(size, first, j, calls);
    if drawing_state(first).compose_hook is None {
        lemma_until_painting(size, first);
        lemma_direct_until_announced(size, first, attempts(first), j);
    }
    law_overlay_is_painted_when_composed(size, first);
    law_inverted_frame(size, first);
    if j < s + 2 {
        lemma_earlier_step(size, first, j, s + 2);
    } else if s + 2 < j {
        lemma_earlier_step(size, first, s + 2, j);
    }
    law_overlay_is_found_again(after, between, size);
    let k = attempts(second);
    let p = paint_index(size, second);
    lemma_until_painting(size, second);
    lemma_goes_on(size, second, k - 1);
    lemma_before_painting(size, second, k - 1);
    if i < k {
        lemma_earlier_step(size, second, i, k);
    } else if k < i {
        lemma_earlier_step(size, second, k, i);
    }
    if i < p {
        lemma_earlier_step(size, second, i, p);
    } else if p < i {
        lemma_earlier_step(size, second, p, i);
    }
    if second[i].step is Compose {
        law_composed_overlay_is_that_of_the_frame(size, second, k - 1, i);
    }
}

} // verus!
