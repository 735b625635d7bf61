use vstd::prelude::*;
use crate::error::Error;
use crate::geometry::Size;
use crate::ids::InstanceId;
use crate::runtime::redraw::RedrawState;

verus! {

/// Tags everything sent to a widget instance: the instance and its lifetime generation.
#[derive(Clone, Copy, Debug, PartialEq, Eq, Structural)]
pub struct DispatchToken {
    pub instance_id: InstanceId,
    pub generation: u64,
}

impl DispatchToken {
    pub fn new(instance_id: InstanceId, generation: u64) -> (t: Self)
        ensures
            t.instance_id == instance_id,
            t.generation == generation,
    {
        DispatchToken { instance_id, generation }
    }
}

/// Tokens of different generations never match, even for the same instance.
pub proof fn lemma_generations_distinguish_tokens(id: InstanceId, g1: u64, g2: u64)
    requires
        g1 != g2,
    ensures
        (DispatchToken { instance_id: id, generation: g1 }) != (DispatchToken {
            instance_id: id,
            generation: g2,
        }),
{
}

/// What `begin_initialize` tells the runner to do next.
#[derive(Clone, Copy, Debug, PartialEq, Eq, Structural)]
pub enum InitializeStep {
    /// Mount and start the widget, then call `finish_initialize`.
    Mount,
    /// The instance is already live; nothing to do.
    AlreadyInitialized,
}

/// The lifecycle state of the single widget instance an app runner drives: whether it has
/// been initialized or shut down, its dispatch generation, the surface size, and the redraw
/// and layout invalidation flags.
pub struct RunnerCore {
    instance_id: InstanceId,
    generation: u64,
    surface_size: Size,
    initialized: bool,
    shut_down: bool,
    redraw: RedrawState,
    layout_dirty: bool,
}

/// The message returned when a runner is initialized after it was shut down.
pub open spec fn single_lifetime_message() -> Seq<char> {
    "widgetkit v0.1 AppRunner supports a single widget instance lifetime"@
}

impl RunnerCore {
    #[verifier::type_invariant]
    spec fn inv(self) -> bool {
        &&& self.generation == (if self.shut_down {
            2int
        } else {
            1int
        })
        &&& self.shut_down ==> !self.initialized
    }

    pub closed spec fn spec_instance_id(&self) -> InstanceId {
        self.instance_id
    }

    pub closed spec fn spec_generation(&self) -> u64 {
        self.generation
    }

    pub closed spec fn spec_surface_size(&self) -> Size {
        self.surface_size
    }

    pub closed spec fn spec_initialized(&self) -> bool {
        self.initialized
    }

    pub closed spec fn spec_shut_down(&self) -> bool {
        self.shut_down
    }

    pub closed spec fn spec_redraw(&self) -> RedrawState {
        self.redraw
    }

    pub closed spec fn spec_layout_dirty(&self) -> bool {
        self.layout_dirty
    }

    /// The token that the live instance accepts.
    pub open spec fn spec_current_token(&self) -> DispatchToken {
        DispatchToken { instance_id: self.spec_instance_id(), generation: self.spec_generation() }
    }

    /// A fresh runner: generation one, the default surface size, nothing pending.
    pub fn new(instance_id: InstanceId) -> (r: Self)
        ensures
            r.spec_instance_id() == instance_id,
            r.spec_generation() == 1,
            r.spec_surface_size() == (Size { width: 320, height: 120 }),
            !r.spec_initialized(),
            !r.spec_shut_down(),
            r.spec_redraw() == RedrawState::clean(),
            !r.spec_layout_dirty(),
    {
        RunnerCore {
            instance_id,
            generation: 1,
            surface_size: Size::new(320, 120),
            initialized: false,
            shut_down: false,
            redraw: RedrawState::new(),
            layout_dirty: false,
        }
    }

    pub fn instance_id(&self) -> (id: InstanceId)
        ensures
            id == self.spec_instance_id(),
    {
        self.instance_id
    }

    pub fn surface_size(&self) -> (s: Size)
        ensures
            s == self.spec_surface_size(),
    {
        self.surface_size
    }

    pub fn is_initialized(&self) -> (r: bool)
        ensures
            r == self.spec_initialized(),
    {
        self.initialized
    }

    pub fn is_shut_down(&self) -> (r: bool)
        ensures
            r == self.spec_shut_down(),
    {
        self.shut_down
    }

    pub fn current_dispatch_token(&self) -> (t: DispatchToken)
        ensures
            t == self.spec_current_token(),
    {
        DispatchToken::new(self.instance_id, self.generation)
    }

    /// Whether bookkeeping sent with `token` (timer and task completions) belongs to this
    /// instance lifetime.
    pub fn matches_token(&self, token: DispatchToken) -> (r: bool)
        ensures
            r == (token == self.spec_current_token()),
    {
        token.instance_id == self.instance_id && token.generation == self.generation
    }

    /// Whether a message sent with `token` is delivered to the widget: only while the
    /// instance is live and only for its own lifetime.
    pub fn accepts_token(&self, token: DispatchToken) -> (r: bool)
        ensures
            r == (self.spec_initialized() && !self.spec_shut_down() && token
                == self.spec_current_token()),
    {
        self.initialized && !self.shut_down && self.matches_token(token)
    }

    /// Marks layout and the frame dirty; `true` when the host must be woken for a new frame.
    pub fn request_render(&mut self) -> (wake: bool)
        ensures
            final(self).spec_layout_dirty(),
            (final(self).spec_redraw(), wake) == old(self).spec_redraw().spec_request(),
            final(self).spec_surface_size() == old(self).spec_surface_size(),
            final(self).spec_initialized() == old(self).spec_initialized(),
            final(self).spec_shut_down() == old(self).spec_shut_down(),
            final(self).spec_current_token() == old(self).spec_current_token(),
    {
        let mut redraw = self.redraw;
        let wake = redraw.request();
        proof {
            use_type_invariant(&*self);
        }
        *self = RunnerCore { redraw, layout_dirty: true, ..*self };
        wake
    }

    /// Adopts a new non-empty surface size and requests a render; empty sizes are ignored.
    pub fn set_surface_size(&mut self, size: Size) -> (wake: bool)
        ensures
            size.spec_is_empty() ==> !wake && final(self).spec_surface_size() == old(self).spec_surface_size() && final(self).spec_redraw() == old(self).spec_redraw()
                && final(self).spec_layout_dirty() == old(self).spec_layout_dirty(),
            !size.spec_is_empty() ==> final(self).spec_surface_size() == size
                && final(self).spec_layout_dirty() && (final(self).spec_redraw(), wake) == old(self).spec_redraw().spec_request(),
            final(self).spec_initialized() == old(self).spec_initialized(),
            final(self).spec_shut_down() == old(self).spec_shut_down(),
            final(self).spec_current_token() == old(self).spec_current_token(),
    {
        if size.is_empty() {
            return false;
        }
        proof {
            use_type_invariant(&*self);
        }
        *self = RunnerCore { surface_size: size, ..*self };
        self.request_render()
    }

    /// The first half of initialization. A shut-down runner refuses (its single lifetime is
    /// over), a live one has nothing to do, and a fresh one adopts a non-empty surface size and
    /// asks to be mounted.
    pub fn begin_initialize(&mut self, surface_size: Size) -> (r: Result<InitializeStep, Error>)
        ensures
            old(self).spec_shut_down() ==> (r matches Err(Error::Message(m)) && m@
                == single_lifetime_message()),
            !old(self).spec_shut_down() && old(self).spec_initialized() ==> r == Ok::<
                InitializeStep,
                Error,
            >(InitializeStep::AlreadyInitialized),
            !old(self).spec_shut_down() && !old(self).spec_initialized() ==> r == Ok::<
                InitializeStep,
                Error,
            >(InitializeStep::Mount) && final(self).spec_surface_size() == (if surface_size.spec_is_empty() {
                old(self).spec_surface_size()
            } else {
                surface_size
            }),
            (old(self).spec_shut_down() || old(self).spec_initialized()) ==> final(self).spec_surface_size() == old(self).spec_surface_size(),
            final(self).spec_initialized() == old(self).spec_initialized(),
            final(self).spec_shut_down() == old(self).spec_shut_down(),
            final(self).spec_redraw() == old(self).spec_redraw(),
            final(self).spec_layout_dirty() == old(self).spec_layout_dirty(),
            final(self).spec_current_token() == old(self).spec_current_token(),
    {
        if self.shut_down {
            return Err(
                Error::message("widgetkit v0.1 AppRunner supports a single widget instance lifetime"),
            );
        }
        if self.initialized {
            return Ok(InitializeStep::AlreadyInitialized);
        }
        if !surface_size.is_empty() {
            proof {
                use_type_invariant(&*self);
            }
            *self = RunnerCore { surface_size, ..*self };
        }
        Ok(InitializeStep::Mount)
    }

    /// The second half of initialization, after the widget is mounted and started: the
    /// instance becomes live and requests its first frame.
    pub fn finish_initialize(&mut self) -> (wake: bool)
        requires
            !old(self).spec_shut_down(),
        ensures
            final(self).spec_initialized(),
            !final(self).spec_shut_down(),
            final(self).spec_layout_dirty(),
            (final(self).spec_redraw(), wake) == old(self).spec_redraw().spec_request(),
            final(self).spec_surface_size() == old(self).spec_surface_size(),
            final(self).spec_current_token() == old(self).spec_current_token(),
    {
        proof {
            use_type_invariant(&*self);
        }
        *self = RunnerCore { initialized: true, ..*self };
        self.request_render()
    }

    /// Whether the widget can be asked for its preferred size.
    pub fn can_layout(&self) -> (r: bool)
        ensures
            r == (self.spec_initialized() && !self.spec_shut_down()),
    {
        self.initialized && !self.shut_down
    }

    pub fn needs_redraw(&self) -> (r: bool)
        ensures
            r == self.spec_redraw().dirty,
    {
        self.redraw.is_dirty()
    }

    pub fn needs_layout(&self) -> (r: bool)
        ensures
            r == self.spec_layout_dirty(),
    {
        self.layout_dirty
    }

    /// Hands a pending layout pass to the host, once, while the instance is live.
    pub fn take_layout_request(&mut self) -> (r: bool)
        ensures
            r == (old(self).spec_initialized() && !old(self).spec_shut_down() && old(self).spec_layout_dirty()),
            final(self).spec_layout_dirty() == (old(self).spec_layout_dirty() && !r),
            final(self).spec_redraw() == old(self).spec_redraw(),
            final(self).spec_surface_size() == old(self).spec_surface_size(),
            final(self).spec_initialized() == old(self).spec_initialized(),
            final(self).spec_shut_down() == old(self).spec_shut_down(),
            final(self).spec_current_token() == old(self).spec_current_token(),
    {
        if !(self.initialized && !self.shut_down && self.layout_dirty) {
            return false;
        }
        proof {
            use_type_invariant(&*self);
        }
        *self = RunnerCore { layout_dirty: false, ..*self };
        true
    }

    /// Hands a pending frame to the host, once per dirty frame, while the instance is live.
    pub fn take_redraw_request(&mut self) -> (r: bool)
        ensures
            !(old(self).spec_initialized() && !old(self).spec_shut_down()) ==> !r && final(self).spec_redraw() == old(self).spec_redraw(),
            old(self).spec_initialized() && !old(self).spec_shut_down() ==> (final(self).spec_redraw(), r) == old(self).spec_redraw().spec_take_request(),
            final(self).spec_layout_dirty() == old(self).spec_layout_dirty(),
            final(self).spec_surface_size() == old(self).spec_surface_size(),
            final(self).spec_initialized() == old(self).spec_initialized(),
            final(self).spec_shut_down() == old(self).spec_shut_down(),
            final(self).spec_current_token() == old(self).spec_current_token(),
    {
        if !(self.initialized && !self.shut_down) {
            return false;
        }
        let mut redraw = self.redraw;
        let r = redraw.take_request();
        proof {
            use_type_invariant(&*self);
        }
        *self = RunnerCore { redraw, ..*self };
        r
    }

    /// Starts rendering a frame of the surface's size: only a live instance with a dirty frame
    /// renders, and then the surface size becomes the rendered size.
    pub fn begin_render(&mut self, width: u32, height: u32) -> (proceed: bool)
        ensures
            !(old(self).spec_initialized() && !old(self).spec_shut_down()) ==> !proceed && final(self).spec_redraw() == old(self).spec_redraw() && final(self).spec_surface_size() == old(self).spec_surface_size(),
            old(self).spec_initialized() && !old(self).spec_shut_down() ==> (final(self).spec_redraw(), proceed) == old(self).spec_redraw().spec_begin_render(),
            old(self).spec_initialized() && !old(self).spec_shut_down() && !proceed ==> final(self).spec_surface_size() == old(self).spec_surface_size(),
            proceed ==> final(self).spec_surface_size() == surface_size_from_pixels(
                width,
                height,
            ),
            final(self).spec_layout_dirty() == old(self).spec_layout_dirty(),
            final(self).spec_initialized() == old(self).spec_initialized(),
            final(self).spec_shut_down() == old(self).spec_shut_down(),
            final(self).spec_current_token() == old(self).spec_current_token(),
    {
        if !(self.initialized && !self.shut_down) {
            return false;
        }
        let mut redraw = self.redraw;
        let proceed = redraw.begin_render();
        proof {
            use_type_invariant(&*self);
        }
        if proceed {
            *self = RunnerCore { redraw, surface_size: size_from_pixels(width, height), ..*self };
        } else {
            *self = RunnerCore { redraw, ..*self };
        }
        proceed
    }

    /// The frame was rendered: nothing is pending any more.
    pub fn finish_render(&mut self)
        ensures
            final(self).spec_redraw() == RedrawState::clean(),
            final(self).spec_layout_dirty() == old(self).spec_layout_dirty(),
            final(self).spec_surface_size() == old(self).spec_surface_size(),
            final(self).spec_initialized() == old(self).spec_initialized(),
            final(self).spec_shut_down() == old(self).spec_shut_down(),
            final(self).spec_current_token() == old(self).spec_current_token(),
    {
        proof {
            use_type_invariant(&*self);
        }
        *self = RunnerCore { redraw: RedrawState::new(), ..*self };
    }

    /// Ends the instance lifetime: the generation moves on, so tokens of the old lifetime no
    /// longer match, and pending redraws are dropped. Shutting down twice does nothing.
    pub fn shutdown(&mut self)
        ensures
            old(self).spec_shut_down() ==> final(self).spec_generation() == old(self).spec_generation() && final(self).spec_redraw() == old(self).spec_redraw(),
            !old(self).spec_shut_down() ==> final(self).spec_generation() == old(self).spec_generation() + 1 && final(self).spec_redraw() == RedrawState::clean(),
            final(self).spec_shut_down(),
            !final(self).spec_initialized(),
            final(self).spec_instance_id() == old(self).spec_instance_id(),
            final(self).spec_surface_size() == old(self).spec_surface_size(),
            final(self).spec_layout_dirty() == old(self).spec_layout_dirty(),
    {
        proof {
            use_type_invariant(&*self);
        }
        if self.shut_down {
            return;
        }
        *self = RunnerCore {
            generation: self.generation + 1,
            initialized: false,
            shut_down: true,
            redraw: RedrawState::new(),
            ..*self
        };
    }
}

/// A surface size in pixels as a logical size, saturated into `i32`.
pub open spec fn surface_size_from_pixels(width: u32, height: u32) -> Size {
    Size {
        width: (if width > i32::MAX as u32 {
            i32::MAX as int
        } else {
            width as int
        }) as i32,
        height: (if height > i32::MAX as u32 {
            i32::MAX as int
        } else {
            height as int
        }) as i32,
    }
}

pub fn size_from_pixels(width: u32, height: u32) -> (s: Size)
    ensures
        s == surface_size_from_pixels(width, height),
{
    let w = if width > i32::MAX as u32 {
        i32::MAX
    } else {
        width as i32
    };
    let h = if height > i32::MAX as u32 {
        i32::MAX
    } else {
        height as i32
    };
    Size::new(w, h)
}

/// The size a platform surface reports, with each side at least one pixel.
pub open spec fn spec_surface_size_at_least_one(width: u32, height: u32) -> Size {
    surface_size_from_pixels(
        if width == 0 {
            1u32
        } else {
            width
        },
        if height == 0 {
            1u32
        } else {
            height
        },
    )
}

pub fn surface_size_at_least_one(width: u32, height: u32) -> (s: Size)
    ensures
        s == spec_surface_size_at_least_one(width, height),
        !s.spec_is_empty(),
{
    let w = if width == 0 {
        1
    } else {
        width
    };
    let h = if height == 0 {
        1
    } else {
        height
    };
    size_from_pixels(w, h)
}

/// Once shut down, a runner accepts no message, whatever its token, and no token of the
/// lifetime that ended matches any more: late messages, timer and task completions are
/// ignored.
pub proof fn lemma_shutdown_rejects_stale_tokens(
    before: RunnerCore,
    after: RunnerCore,
    token: DispatchToken,
)
    requires
        !before.spec_shut_down(),
        after.spec_shut_down(),
        after.spec_instance_id() == before.spec_instance_id(),
        after.spec_generation() == before.spec_generation() + 1,
        token == before.spec_current_token(),
    ensures
        !(after.spec_initialized() && !after.spec_shut_down() && token
            == after.spec_current_token()),
        token != after.spec_current_token(),
{
}

/// A shut-down runner hands out no frame and renders nothing: its redraw state is clean and
/// every gate on rendering is closed.
pub proof fn lemma_shutdown_skips_late_renders(after: RunnerCore)
    requires
        after.spec_shut_down(),
        after.spec_redraw() == RedrawState::clean(),
    ensures
        !after.spec_redraw().dirty,
        !after.spec_redraw().spec_take_request().1,
        !after.spec_redraw().spec_begin_render().1,
        !(after.spec_initialized() && !after.spec_shut_down()),
{
}

/// Step `i` of a run of render requests: `cores[i + 1]` and `wakes[i]` are what
/// `RunnerCore::request_render` makes of `cores[i]`.
pub open spec fn spec_request_step(cores: Seq<RunnerCore>, wakes: Seq<bool>, i: int) -> bool {
    &&& cores[i + 1].spec_layout_dirty()
    &&& (cores[i + 1].spec_redraw(), wakes[i]) == cores[i].spec_redraw().spec_request()
}

/// Any number k >= 1 of render requests with no render between them, each as
/// `RunnerCore::request_render` makes it, leave a dirty frame and a dirty layout, and wake the
/// host exactly once when no redraw was pending before the first request and not at all
/// otherwise.
pub proof fn lemma_render_requests_wake_once(cores: Seq<RunnerCore>, wakes: Seq<bool>)
    requires
        wakes.len() >= 1,
        cores.len() == wakes.len() + 1,
        forall|i: int| 0 <= i < wakes.len() ==> #[trigger] spec_request_step(cores, wakes, i),
    ensures
        cores.last().spec_redraw().dirty,
        cores.last().spec_layout_dirty(),
        wakes[0] == !cores[0].spec_redraw().dirty,
        forall|i: int| 1 <= i < wakes.len() ==> !#[trigger] wakes[i],
    decreases wakes.len(),
{
    assert(spec_request_step(cores, wakes, 0));
    if wakes.len() > 1 {
        let n = wakes.len() - 1;
        let cs = cores.drop_last();
        let ws = wakes.drop_last();
        assert forall|i: int| 0 <= i < ws.len() implies #[trigger] spec_request_step(cs, ws, i) by {
            assert(spec_request_step(cores, wakes, i));
        }
        lemma_render_requests_wake_once(cs, ws);
        assert(spec_request_step(cores, wakes, n));
        assert forall|i: int| 1 <= i < wakes.len() implies !#[trigger] wakes[i] by {
            if i < n {
                assert(ws[i] == wakes[i]);
            }
        }
    }
}

} // verus!
