use vstd::prelude::*;

verus! {

/// Demand-driven redraw bookkeeping: `dirty` while a frame is wanted, `scheduled` once the
/// host has been asked to redraw and has not yet rendered.
#[derive(Clone, Copy, Debug, PartialEq, Eq, Structural)]
pub struct RedrawState {
    pub dirty: bool,
    pub scheduled: bool,
}

impl RedrawState {
    pub open spec fn clean() -> RedrawState {
        RedrawState { dirty: false, scheduled: false }
    }

    pub fn new() -> (s: Self)
        ensures
            s == Self::clean(),
    {
        RedrawState { dirty: false, scheduled: false }
    }

    /// Marking dirty: only the first request before a render reports `true` (wake the host).
    pub open spec fn spec_request(self) -> (RedrawState, bool) {
        if self.dirty {
            (self, false)
        } else {
            (RedrawState { dirty: true, ..self }, true)
        }
    }

    pub fn request(&mut self) -> (first: bool)
        ensures
            (*final(self), first) == old(self).spec_request(),
    {
        if self.dirty {
            return false;
        }
        self.dirty = true;
        true
    }

    pub fn is_dirty(&self) -> (r: bool)
        ensures
            r == self.dirty,
    {
        self.dirty
    }

    /// Handing a pending frame to the host: granted once per dirty frame.
    pub open spec fn spec_take_request(self) -> (RedrawState, bool) {
        if !self.dirty || self.scheduled {
            (self, false)
        } else {
            (RedrawState { scheduled: true, ..self }, true)
        }
    }

    pub fn take_request(&mut self) -> (granted: bool)
        ensures
            (*final(self), granted) == old(self).spec_take_request(),
    {
        if !self.dirty || self.scheduled {
            return false;
        }
        self.scheduled = true;
        true
    }

    /// Starting a render: proceeds only when a frame is dirty; the schedule is consumed either
    /// way.
    pub open spec fn spec_begin_render(self) -> (RedrawState, bool) {
        (RedrawState { scheduled: false, ..self }, self.dirty)
    }

    pub fn begin_render(&mut self) -> (proceed: bool)
        ensures
            (*final(self), proceed) == old(self).spec_begin_render(),
    {
        if !self.dirty {
            self.scheduled = false;
            return false;
        }
        self.scheduled = false;
        true
    }

    pub fn finish_render(&mut self)
        ensures
            *final(self) == Self::clean(),
    {
        self.dirty = false;
        self.scheduled = false;
    }

    pub fn clear(&mut self)
        ensures
            *final(self) == Self::clean(),
    {
        self.dirty = false;
        self.scheduled = false;
    }
}

impl Default for RedrawState {
    fn default() -> (s: Self)
        ensures
            s == Self::clean(),
    {
        Self::new()
    }
}

/// Repeated requests before a render collapse: whatever the state, after one request a
/// second one reports nothing to wake.
pub proof fn lemma_requests_coalesce(s: RedrawState)
    ensures
        !s.spec_request().0.spec_request().1,
        s.spec_request().0.spec_request().0 == s.spec_request().0,
        s.spec_request().0.dirty,
{
}

/// The host is handed a pending frame at most once until it renders.
pub proof fn lemma_take_request_once(s: RedrawState)
    ensures
        !s.spec_take_request().0.spec_take_request().1,
{
}

/// After a request, the host is handed the frame, and rendering it leaves nothing pending.
pub proof fn lemma_request_then_render(s: RedrawState)
    requires
        !s.scheduled,
    ensures
        ({
            let after_request = s.spec_request().0;
            let (after_take, granted) = after_request.spec_take_request();
            let (after_begin, proceed) = after_take.spec_begin_render();
            granted && proceed && after_begin.dirty
        }),
{
}

} // verus!
