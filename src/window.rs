//! Windows: the state a window keeps between frames, and how the events of
//! one poll are routed.
use vstd::prelude::*;

verus! {

/// What the routing of window events needs to know of one event.
#[derive(Clone, Copy, Debug, PartialEq, Eq, Structural)]
pub enum EventKind {
    /// The user asked to close the window.
    Closed,
    /// Any other window event.
    Other,
}

/// The plain state of a window of fixed size.
#[derive(Clone, Copy, Debug, PartialEq, Eq, Structural)]
pub struct WindowState {
    pub width: u32,
    pub height: u32,
    /// Whether the last poll of events held a request to close the window.
    pub should_exit: bool,
}

/// Whether a poll's events hold a request to close the window.
pub open spec fn close_requested(events: Seq<EventKind>) -> bool {
    exists|i: int| 0 <= i < events.len() && events[i] == EventKind::Closed
}

impl WindowState {
    /// A window of `width` by `height` pixels that has not been asked to
    /// close.
    pub fn new(width: u32, height: u32) -> (r: WindowState)
        ensures
            r == (WindowState { width, height, should_exit: false }),
    {
        WindowState { width, height, should_exit: false }
    }

    /// Start routing the events of a new poll: no request to close has been
    /// seen in it yet.
    pub fn begin_events(&mut self)
        ensures
            *final(self) == (WindowState {
                width: old(self).width,
                height: old(self).height,
                should_exit: false,
            }),
    {
        self.should_exit = false;
    }

    /// Route one event of the poll: a request to close sets `should_exit`
    /// and goes no further, every other event goes on to the caller's
    /// handler. The result says whether it goes on.
    pub fn route_event(&mut self, kind: EventKind) -> (forward: bool)
        ensures
            final(self).width == old(self).width,
            final(self).height == old(self).height,
            final(self).should_exit == (old(self).should_exit || kind == EventKind::Closed),
            forward == (kind == EventKind::Other),
    {
        match kind {
            EventKind::Closed => {
                self.should_exit = true;
                false
            },
            EventKind::Other => true,
        }
    }

    /// Route all the events of one poll, in order, as `begin_events` and
    /// then `route_event` on each would. The result says, event by event,
    /// which ones go on.
    pub fn handle_events(&mut self, events: &Vec<EventKind>) -> (forward: Vec<bool>)
        ensures
            final(self).width == old(self).width,
            final(self).height == old(self).height,
            final(self).should_exit == close_requested(events@),
            forward@.len() == events@.len(),
            forall|i: int| 0 <= i < events@.len() ==> forward@[i] == (events@[i] == EventKind::Other),
    {
        self.begin_events();
        let mut forward: Vec<bool> = Vec::new();
        let mut i: usize = 0;
        while i < events.len()
            invariant
                i <= events@.len(),
                self.width == old(self).width,
                self.height == old(self).height,
                forward@.len() == i,
                forall|j: int| 0 <= j < i ==> forward@[j] == (events@[j] == EventKind::Other),
                self.should_exit == close_requested(events@.subrange(0, i as int)),
            decreases events@.len() - i,
        {
            proof {
                let before = events@.subrange(0, i as int);
                let after = events@.subrange(0, i + 1);
                assert(before =~= after.drop_last());
                if close_requested(before) {
                    let k = choose|k: int| 0 <= k < before.len() && before[k] == EventKind::Closed;
                    assert(after[k] == EventKind::Closed);
                }
                assert(after[i as int] == events@[i as int]);
            }
            let go = self.route_event(events[i]);
            forward.push(go);
            i += 1;
        }
        assert(events@.subrange(0, events@.len() as int) =~= events@);
        forward
    }
}

} // verus!
