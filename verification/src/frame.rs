//! The state of the frame loop and how window events change it.
//!
//! The loop itself belongs to the caller: it polls the window, hands each
//! event to [`FrameState::handle_event`], performs what the returned
//! [`EventAction`] asks for, draws, and goes round again while
//! [`FrameState::is_running`] holds.

use vstd::prelude::*;
use crate::geometry::{create_vertices_indices, quad_indices, quad_vertices, Vertex};

verus! {

/// Width of the window when it opens, in pixels.
pub const INITIAL_WIDTH: u32 = 800;

/// Height of the window when it opens, in pixels.
pub const INITIAL_HEIGHT: u32 = 600;

/// The keys that the loop tells apart.
#[derive(Clone, Copy, Debug, PartialEq, Eq)]
pub enum Key {
    Escape,
    Other,
}

/// A window event, reduced to what the loop reacts to.
#[derive(Clone, Copy, Debug, PartialEq, Eq)]
pub enum Event {
    /// A key went down.
    KeyDown(Key),
    /// The window was asked to close.
    Close,
    /// The window now has this width and height.
    Resize(u32, u32),
    /// Anything else.
    Other,
}

/// What the caller owes the window after an event.
#[derive(Clone, Copy, Debug, PartialEq, Eq)]
pub enum EventAction {
    /// Nothing.
    Nothing,
    /// Re-derive the colour and depth targets from the window's new size.
    UpdateViews,
}

impl Event {
    /// Whether this event ends the loop: escape going down, or a close.
    pub open spec fn stops(self) -> bool {
        self == Event::KeyDown(Key::Escape) || self == Event::Close
    }

    /// What the caller owes the window after this event.
    pub open spec fn action(self) -> EventAction {
        if self is Resize {
            EventAction::UpdateViews
        } else {
            EventAction::Nothing
        }
    }
}

/// Whether some event of the queue ends the loop.
pub open spec fn stops_in(events: Seq<Event>) -> bool {
    exists|i: int| 0 <= i < events.len() && (#[trigger] events[i]).stops()
}

/// Whether some event of the queue is a resize.
pub open spec fn resizes_in(events: Seq<Event>) -> bool {
    exists|i: int| 0 <= i < events.len() && #[trigger] events[i] is Resize
}

/// Whether the event at `at` is a resize and no resize comes after it.
pub open spec fn last_resize_at(events: Seq<Event>, at: int) -> bool {
    &&& 0 <= at < events.len()
    &&& events[at] is Resize
    &&& forall|later: int| at < later < events.len() ==> !(#[trigger] events[later] is Resize)
}

/// What the caller owes the window after a queue of events: one update of
/// the views where any of them was a resize.
pub open spec fn queue_action(events: Seq<Event>) -> EventAction {
    if resizes_in(events) {
        EventAction::UpdateViews
    } else {
        EventAction::Nothing
    }
}

/// What the frame loop carries from one iteration to the next.
#[derive(Clone, Copy, Debug, PartialEq, Eq)]
pub struct FrameState {
    /// Set once the loop has been asked to end; never cleared.
    pub stop: bool,
    /// Set when the vertex buffer has to be built again before the next draw.
    pub rebuild: bool,
    /// Width and height of the window as last reported.
    pub dimensions: (u32, u32),
}

impl FrameState {
    /// The state in which the loop starts.
    pub open spec fn initial() -> FrameState {
        FrameState { stop: false, rebuild: false, dimensions: (INITIAL_WIDTH, INITIAL_HEIGHT) }
    }

    /// Whether the loop goes on.
    pub open spec fn running(self) -> bool {
        !self.stop
    }

    /// The state after one event.
    pub open spec fn after_event(self, event: Event) -> FrameState {
        match event {
            Event::KeyDown(Key::Escape) | Event::Close => FrameState { stop: true, ..self },
            Event::Resize(width, height) => FrameState {
                rebuild: true,
                dimensions: (width, height),
                ..self
            },
            _ => self,
        }
    }

    /// The state after a queue of events, oldest first.
    pub open spec fn after_events(self, events: Seq<Event>) -> FrameState
        decreases events.len(),
    {
        if events.len() == 0 {
            self
        } else {
            self.after_events(events.drop_last()).after_event(events.last())
        }
    }

    /// The buffers that the start of a frame hands out: the quad where a
    /// rebuild is pending, nothing otherwise.
    pub open spec fn pending_geometry(self) -> Option<(Seq<Vertex>, Seq<u16>)> {
        if self.rebuild {
            Some((quad_vertices(), quad_indices()))
        } else {
            None
        }
    }

    /// The state after the start of a frame.
    pub open spec fn after_begin_frame(self) -> FrameState {
        FrameState { rebuild: false, ..self }
    }

    /// The state in which the loop starts: running, no rebuild pending,
    /// the window at its initial size.
    pub fn new() -> (state: FrameState)
        ensures
            state == FrameState::initial(),
    {
        FrameState { stop: false, rebuild: false, dimensions: (INITIAL_WIDTH, INITIAL_HEIGHT) }
    }

    /// Whether the loop goes on. The caller tests this before each frame.
    pub fn is_running(&self) -> (running: bool)
        ensures
            running == self.running(),
    {
        !self.stop
    }

    /// Starts a frame. Where a rebuild is pending, builds the quad again,
    /// returns its buffers for the caller to bind, and clears the request.
    pub fn begin_frame(&mut self) -> (geometry: Option<(Vec<Vertex>, Vec<u16>)>)
        ensures
            *final(self) == old(self).after_begin_frame(),
            match geometry {
                Some(buffers) => old(self).pending_geometry() == Some((buffers.0@, buffers.1@)),
                None => old(self).pending_geometry() is None,
            },
    {
        if self.rebuild {
            self.rebuild = false;
            Some(create_vertices_indices())
        } else {
            None
        }
    }

    /// Takes one window event into the state and says what the caller owes
    /// the window for it.
    pub fn handle_event(&mut self, event: Event) -> (action: EventAction)
        ensures
            *final(self) == old(self).after_event(event),
            action == event.action(),
    {
        match event {
            Event::KeyDown(Key::Escape) | Event::Close => {
                self.stop = true;
                EventAction::Nothing
            },
            Event::Resize(width, height) => {
                self.dimensions = (width, height);
                self.rebuild = true;
                EventAction::UpdateViews
            },
            _ => EventAction::Nothing,
        }
    }

    /// Drains a queue of events, oldest first, into the state and says what
    /// the caller owes the window for all of them together.
    pub fn handle_events(&mut self, events: &Vec<Event>) -> (action: EventAction)
        ensures
            *final(self) == old(self).after_events(events@),
            action == queue_action(events@),
    {
        let mut action = EventAction::Nothing;
        let mut done: usize = 0;
        while done < events.len()
            invariant
                done <= events.len(),
                *self == old(self).after_events(events@.take(done as int)),
                action == queue_action(events@.take(done as int)),
            decreases events.len() - done,
        {
            let event = events[done];
            let ghost seen = events@.take(done as int);
            let ghost next = events@.take(done + 1);
            proof {
                assert(next.drop_last() == seen);
                if resizes_in(seen) {
                    let i = choose|i: int| 0 <= i < seen.len() && #[trigger] seen[i] is Resize;
                    assert(next[i] is Resize);
                }
                if resizes_in(next) && !(event is Resize) {
                    let i = choose|i: int| 0 <= i < next.len() && #[trigger] next[i] is Resize;
                    assert(seen[i] is Resize);
                }
            }
            match self.handle_event(event) {
                EventAction::UpdateViews => {
                    action = EventAction::UpdateViews;
                },
                EventAction::Nothing => {},
            }
            done += 1;
        }
        proof {
            assert(events@.take(events.len() as int) == events@);
        }
        action
    }
}

/// A resize records the new size and asks for a rebuild, and touches nothing
/// else. The next frame then starts by handing out the quad and clears the
/// request, keeping the size.
pub proof fn resize_requests_rebuild(state: FrameState, width: u32, height: u32)
    ensures
        ({
            let resized = state.after_event(Event::Resize(width, height));
            let started = resized.after_begin_frame();
            &&& resized.dimensions == (width, height)
            &&& resized.rebuild
            &&& resized.stop == state.stop
            &&& resized.pending_geometry() == Some((quad_vertices(), quad_indices()))
            &&& !started.rebuild
            &&& started.pending_geometry() is None
            &&& started.dimensions == (width, height)
            &&& started.stop == state.stop
        }),
{
}

/// Escape going down, or a close, stops the loop and touches nothing else.
pub proof fn escape_or_close_stops(state: FrameState, event: Event)
    requires
        event == Event::KeyDown(Key::Escape) || event == Event::Close,
    ensures
        state.after_event(event).stop,
        !state.after_event(event).running(),
        state.after_event(event).rebuild == state.rebuild,
        state.after_event(event).dimensions == state.dimensions,
{
}

/// An event that neither stops the loop nor resizes the window changes
/// nothing, and asks nothing of the caller.
pub proof fn other_events_change_nothing(state: FrameState, event: Event)
    requires
        !event.stops(),
        !(event is Resize),
    ensures
        state.after_event(event) == state,
        event.action() == EventAction::Nothing,
{
}

/// A stopped loop stays stopped: no queue of events and no start of a frame
/// sets it running again.
pub proof fn stopped_is_terminal(state: FrameState, events: Seq<Event>)
    requires
        state.stop,
    ensures
        state.after_events(events).stop,
        state.after_begin_frame().stop,
    decreases events.len(),
{
    if events.len() > 0 {
        stopped_is_terminal(state, events.drop_last());
    }
}

/// Handling one queue after another is handling both as one.
pub proof fn queues_join(state: FrameState, first: Seq<Event>, second: Seq<Event>)
    ensures
        state.after_events(first + second) == state.after_events(first).after_events(second),
    decreases second.len(),
{
    if second.len() == 0 {
        assert(first + second == first);
    } else {
        queues_join(state, first, second.drop_last());
        assert((first + second).drop_last() == first + second.drop_last());
        assert((first + second).last() == second.last());
    }
}

/// What a queue of events comes to. The loop is stopped afterwards exactly
/// if it was before or some event stops it; a rebuild is pending exactly if
/// one was before or some event is a resize; the size is that of the last
/// resize, or unchanged where there is none.
pub proof fn queue_outcome(state: FrameState, events: Seq<Event>)
    ensures
        state.after_events(events).stop == (state.stop || stops_in(events)),
        state.after_events(events).rebuild == (state.rebuild || resizes_in(events)),
        !resizes_in(events) ==> state.after_events(events).dimensions == state.dimensions,
        forall|at: int| #[trigger]
            last_resize_at(events, at) ==> state.after_events(events).dimensions == (
                events[at]->Resize_0,
                events[at]->Resize_1,
            ),
    decreases events.len(),
{
    if events.len() > 0 {
        let earlier = events.drop_last();
        let newest = events.last();
        let before = state.after_events(earlier);
        let after = state.after_events(events);
        queue_outcome(state, earlier);
        if stops_in(earlier) {
            let i = choose|i: int| 0 <= i < earlier.len() && (#[trigger] earlier[i]).stops();
            assert(events[i].stops());
        }
        if stops_in(events) && !newest.stops() {
            let i = choose|i: int| 0 <= i < events.len() && (#[trigger] events[i]).stops();
            assert(earlier[i].stops());
        }
        if resizes_in(earlier) {
            let i = choose|i: int| 0 <= i < earlier.len() && #[trigger] earlier[i] is Resize;
            assert(events[i] is Resize);
        }
        if resizes_in(events) && !(newest is Resize) {
            let i = choose|i: int| 0 <= i < events.len() && #[trigger] events[i] is Resize;
            assert(earlier[i] is Resize);
        }
        assert forall|at: int| #[trigger] last_resize_at(events, at) implies after.dimensions == (
            events[at]->Resize_0,
            events[at]->Resize_1,
        ) by {
            if at < events.len() - 1 {
                assert(!(events[events.len() - 1] is Resize));
                assert(last_resize_at(earlier, at)) by {
                    assert forall|later: int| at < later < earlier.len() implies !(
                    #[trigger] earlier[later] is Resize) by {
                        assert(!(events[later] is Resize));
                    }
                }
            }
        }
    }
}

/// A loop that was running and is stopped after a queue of events met an
/// escape going down, or a close, in that queue: nothing else stops it.
pub proof fn only_escape_or_close_stops(state: FrameState, events: Seq<Event>)
    requires
        state.running(),
        !state.after_events(events).running(),
    ensures
        exists|i: int|
            0 <= i < events.len() && (#[trigger] events[i] == Event::KeyDown(Key::Escape)
                || events[i] == Event::Close),
{
    queue_outcome(state, events);
    let i = choose|i: int| 0 <= i < events.len() && (#[trigger] events[i]).stops();
    assert(events[i] == Event::KeyDown(Key::Escape) || events[i] == Event::Close);
}

} // verus!
