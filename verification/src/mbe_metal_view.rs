//! The view's share of the frame protocol: what a tick of the clock leads
//! to, when the depth texture is made anew, and how a clock is put in place
//! and taken away.
use vstd::prelude::*;
use crate::core_anim_display_link::{
    ClockPhase, ClockState, CoreAnimDisplayLink, CoreAnimError, InvalidateAction,
};
use crate::metal_texture::{
    depth_descriptor, MetalTexture, MetalTextureDescriptor, MTLPixelFormatDepth32Float,
    MTLStorageModePrivate, MTLTextureUsageRenderTarget,
};

verus! {

/// The rate that a view asks of its clock unless told otherwise.
pub const DEFAULT_FRAMES_PER_SECOND: i64 = 60;

/// A call on the render delegate.
#[derive(Copy, Clone, Debug, PartialEq, Eq, Structural)]
pub enum DelegateCall {
    /// Advance the animation by the duration of the frame.
    UpdateTimeAndRotation,
    /// Draw the frame.
    DrawInView,
}

/// What a tick of the clock leads to.
#[derive(Copy, Clone, Debug, PartialEq, Eq, Structural)]
pub enum TickAction {
    /// The clock is not running: the tick is stale and is dropped.
    Ignored,
    /// The renderer could not be set up: nothing is drawn on this view.
    Disabled,
    /// No drawable was to be had: this frame is skipped, the next tick tries
    /// again.
    SkipFrame,
    /// Call the delegate: first to advance the animation, then to draw.
    Render,
}

/// What the caller has to do after a clock was put in place.
#[derive(Copy, Clone, Debug, PartialEq, Eq, Structural)]
pub struct ClockInstall {
    /// What to do to the timer of the clock that was replaced.
    pub retire: InvalidateAction,
    /// Whether to start the timer of the new clock.
    pub start_timer: bool,
    /// Why the view has no clock now, if it has none.
    pub error: Option<CoreAnimError>,
}

impl TickAction {
    /// The calls on the delegate that the action asks for, in order.
    pub open spec fn spec_delegate_calls(self) -> Seq<DelegateCall> {
        if self == TickAction::Render {
            seq![DelegateCall::UpdateTimeAndRotation, DelegateCall::DrawInView]
        } else {
            seq![]
        }
    }

    /// The calls on the delegate that the action asks for, in order.
    pub fn delegate_calls(&self) -> (calls: Vec<DelegateCall>)
        ensures
            calls@ == self.spec_delegate_calls(),
    {
        let mut calls: Vec<DelegateCall> = Vec::new();
        if *self == TickAction::Render {
            calls.push(DelegateCall::UpdateTimeAndRotation);
            calls.push(DelegateCall::DrawInView);
        }
        calls
    }
}

/// What a view is, mathematically.
pub struct ViewState {
    pub rendering_enabled: bool,
    pub preferred_frames_per_second: i64,
    pub depth_texture: Option<(u64, u64)>,
    pub clock: ClockState,
}

impl ViewState {
    /// A view as it is made: 60 ticks per second asked for, no depth
    /// texture, no clock.
    pub open spec fn initial(rendering_enabled: bool) -> ViewState {
        ViewState {
            rendering_enabled,
            preferred_frames_per_second: DEFAULT_FRAMES_PER_SECOND,
            depth_texture: None,
            clock: ClockState::detached(),
        }
    }

    /// Whether the depth texture has to be made anew for a drawable of the
    /// given size: there is none, or it has another size.
    pub open spec fn needs_depth_texture(self, width: u64, height: u64) -> bool {
        self.depth_texture != Some((width, height))
    }

    /// What a request to draw leads to in this state, whoever makes it.
    pub open spec fn redraw_action(self, drawable_available: bool) -> TickAction {
        if !self.rendering_enabled {
            TickAction::Disabled
        } else if !drawable_available {
            TickAction::SkipFrame
        } else {
            TickAction::Render
        }
    }

    /// What a tick leads to in this state: a request to draw, if the clock
    /// runs.
    pub open spec fn tick_action(self, drawable_available: bool) -> TickAction {
        if !self.clock.delivers_ticks() {
            TickAction::Ignored
        } else {
            self.redraw_action(drawable_available)
        }
    }

    /// The clock that the view holds after one was put in place: the new
    /// one, started and with the view's rate, or none where none could be
    /// made.
    pub open spec fn installed_clock(self, created: Result<ClockState, CoreAnimError>)
        -> ClockState {
        match created {
            Ok(clock) => (ClockState {
                preferred_frames_per_second: Some(self.preferred_frames_per_second),
                ..clock
            }).after_start(),
            Err(_) => ClockState::detached(),
        }
    }

    /// What the caller is told after a clock was put in place.
    pub open spec fn install_report(self, created: Result<ClockState, CoreAnimError>)
        -> ClockInstall {
        ClockInstall {
            retire: self.clock.invalidate_action(),
            start_timer: match created {
                Ok(clock) => clock.starts_timer(),
                Err(_) => false,
            },
            error: match created {
                Ok(_) => None,
                Err(e) => Some(e),
            },
        }
    }
}

/// The view that a clock drives and a renderer draws into.
#[derive(Debug)]
pub struct RustMetalView {
    rendering_enabled: bool,
    preferred_frames_per_second: i64,
    depth_texture: MetalTexture,
    display_link: CoreAnimDisplayLink,
}

impl RustMetalView {
    /// The view as a mathematical value.
    pub closed spec fn view(&self) -> ViewState {
        ViewState {
            rendering_enabled: self.rendering_enabled,
            preferred_frames_per_second: self.preferred_frames_per_second,
            depth_texture: self.depth_texture@,
            clock: self.display_link@,
        }
    }

    /// The invariant of the type: the rate asked for is positive.
    pub open spec fn wf(&self) -> bool {
        self@.preferred_frames_per_second > 0
    }

    /// Makes a view. `renderer_ready` says whether the renderer could be set
    /// up; where it could not, the view never draws.
    pub fn new(renderer_ready: bool) -> (v: Self)
        ensures
            v.wf(),
            v@ == ViewState::initial(renderer_ready),
    {
        RustMetalView {
            rendering_enabled: renderer_ready,
            preferred_frames_per_second: DEFAULT_FRAMES_PER_SECOND,
            depth_texture: MetalTexture::default(),
            display_link: CoreAnimDisplayLink::default(),
        }
    }

    /// The depth texture that the view holds.
    #[inline]
    pub fn get_depth_texture(&self) -> (t: &MetalTexture)
        ensures
            t@ == self@.depth_texture,
    {
        &self.depth_texture
    }

    /// The rate that the view asks of its clock.
    pub fn get_preferred_frames_per_second(&self) -> (r: i64)
        ensures
            r == self@.preferred_frames_per_second,
    {
        self.preferred_frames_per_second
    }

    /// Asks for another rate, in ticks per second. The clocks put in place
    /// from now on get it.
    pub fn set_preferred_frames_per_second(&mut self, preferred_frames_per_second: i64)
        requires
            preferred_frames_per_second > 0,
        ensures
            final(self).wf(),
            final(self)@ == (ViewState { preferred_frames_per_second, ..old(self)@ }),
    {
        self.preferred_frames_per_second = preferred_frames_per_second;
    }

    /// Where the view's clock is in its life.
    pub fn clock_phase(&self) -> (r: ClockPhase)
        ensures
            r == self@.clock.phase,
    {
        self.display_link.phase()
    }

    /// Makes sure that the depth texture fits a drawable of the given size.
    /// Where the view has none, or one of another size, the caller gets the
    /// description of the texture to make, and the view holds that texture
    /// from now on; where the sizes agree nothing happens.
    pub fn make_depth_texture(&mut self, drawable_width: u64, drawable_height: u64) -> (r: Option<
        MetalTextureDescriptor,
    >)
        ensures
            r is Some <==> old(self)@.needs_depth_texture(drawable_width, drawable_height),
            r matches Some(descriptor) ==> descriptor == depth_descriptor(
                drawable_width,
                drawable_height,
            ),
            final(self)@ == (ViewState {
                depth_texture: Some((drawable_width, drawable_height)),
                ..old(self)@
            }),
    {
        if self.depth_texture.is_null() || self.depth_texture.get_width() != drawable_width
            || self.depth_texture.get_height() != drawable_height {
            self.depth_texture = MetalTexture::with_size(drawable_width, drawable_height);
            Some(
                MetalTextureDescriptor {
                    pixel_format: MTLPixelFormatDepth32Float,
                    width: drawable_width,
                    height: drawable_height,
                    mipmapped: false,
                    usage: MTLTextureUsageRenderTarget,
                    storage_mode: MTLStorageModePrivate,
                },
            )
        } else {
            None
        }
    }

    /// Puts a clock in place of the one the view holds. `created` is what
    /// making the new clock gave. The old clock is invalidated in any case.
    /// A new clock gets the view's rate and is started; without one the
    /// view goes on without animation.
    pub fn install_display_link(
        &mut self,
        created: Result<CoreAnimDisplayLink, CoreAnimError>,
    ) -> (report: ClockInstall)
        requires
            old(self).wf(),
        ensures
            final(self).wf(),
            created matches Ok(link) ==> report == old(self)@.install_report(Ok(link@))
                && final(self)@ == (ViewState {
                clock: old(self)@.installed_clock(Ok(link@)),
                ..old(self)@
            }),
            created matches Err(e) ==> report == old(self)@.install_report(Err(e))
                && final(self)@ == (ViewState {
                clock: old(self)@.installed_clock(Err(e)),
                ..old(self)@
            }),
    {
        let retire = self.display_link.invalidate();
        match created {
            Ok(link) => {
                let mut link = link;
                link.set_preferred_frames_per_second(self.preferred_frames_per_second);
                let start_timer = link.add_to_main_run_loop();
                self.display_link = link;
                ClockInstall { retire, start_timer, error: None }
            },
            Err(e) => {
                self.display_link = CoreAnimDisplayLink::default();
                ClockInstall { retire, start_timer: false, error: Some(e) }
            },
        }
    }

    /// Says what a request to draw leads to, whether or not a clock runs:
    /// nothing where the renderer is missing or no drawable is to be had;
    /// else the two calls on the delegate.
    pub fn redraw(&self, drawable_available: bool) -> (action: TickAction)
        ensures
            action == self@.redraw_action(drawable_available),
            action != TickAction::Ignored,
    {
        if !self.rendering_enabled {
            TickAction::Disabled
        } else if !drawable_available {
            TickAction::SkipFrame
        } else {
            TickAction::Render
        }
    }

    /// Says what a tick of the clock leads to: nothing where the clock is
    /// not running; else what a request to draw leads to.
    pub fn display_link_did_fire(&self, drawable_available: bool) -> (action: TickAction)
        ensures
            action == self@.tick_action(drawable_available),
    {
        if !self.display_link.is_running() {
            TickAction::Ignored
        } else {
            self.redraw(drawable_available)
        }
    }

    /// Takes the view down: its clock is invalidated, and the caller is told
    /// what to do to the timer.
    pub fn dealloc(&mut self) -> (action: InvalidateAction)
        ensures
            action == old(self)@.clock.invalidate_action(),
            final(self)@ == (ViewState {
                clock: old(self)@.clock.after_invalidate(),
                ..old(self)@
            }),
    {
        self.display_link.invalidate()
    }
}

/// The depth texture is made once for each size: right after
/// `make_depth_texture` for a size, the same size asks for nothing, and any
/// other size asks for a new texture.
pub proof fn lemma_depth_texture_cached(s: ViewState, width: u64, height: u64, w2: u64, h2: u64)
    ensures
        !(ViewState { depth_texture: Some((width, height)), ..s }).needs_depth_texture(
            width,
            height,
        ),
        (w2 != width || h2 != height) ==> (ViewState {
            depth_texture: Some((width, height)),
            ..s
        }).needs_depth_texture(w2, h2),
        s.depth_texture is None ==> s.needs_depth_texture(width, height),
{
}

/// Once the view is taken down no tick leads to a call on the delegate,
/// and taking it down again asks for nothing.
pub proof fn lemma_no_tick_after_dealloc(s: ViewState, drawable_available: bool)
    ensures
        (ViewState { clock: s.clock.after_invalidate(), ..s }).tick_action(drawable_available)
            == TickAction::Ignored,
        (ViewState { clock: s.clock.after_invalidate(), ..s }).tick_action(
            drawable_available,
        ).spec_delegate_calls().len() == 0,
        s.clock.after_invalidate().invalidate_action() == InvalidateAction::Nothing,
{
}

/// A tick leads either to no call on the delegate or to exactly two: the
/// animation is advanced first, the frame is drawn second.
pub proof fn lemma_tick_calls_in_order(s: ViewState, drawable_available: bool)
    ensures
        s.tick_action(drawable_available).spec_delegate_calls().len() == 0 || s.tick_action(
            drawable_available,
        ).spec_delegate_calls() == seq![
            DelegateCall::UpdateTimeAndRotation,
            DelegateCall::DrawInView,
        ],
        s.tick_action(drawable_available) == TickAction::Render <==> s.clock.delivers_ticks()
            && s.rendering_enabled && drawable_available,
{
}

} // verus!
