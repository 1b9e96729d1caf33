//! The decisions of the window loop.
//!
//! The program around this module owns the window and the device. Once per
//! iteration it drains the pending window events, hands each to
//! [`EventLoop::handle_event`] and performs the [`Action`] that comes back;
//! then it renders one frame by the commands of [`frame_commands`]; then it
//! asks [`EventLoop::is_running`] whether to go round again.

use vstd::prelude::*;
use crate::error::{exit_code_spec, Outcome, EXIT_SUCCESS};

verus! {

/// A key of the keyboard, as far as the loop tells keys apart.
#[derive(Clone, Copy, Debug, PartialEq, Eq, Structural)]
pub enum Key {
    Escape,
    Other,
}

/// A window event, as far as the loop tells events apart.
#[derive(Clone, Copy, Debug, PartialEq, Eq, Structural)]
pub enum Event {
    /// The window was asked to close.
    Closed,
    /// A key went down.
    KeyDown(Key),
    /// The window was resized to this width and height, in pixels.
    Resized(u32, u32),
    /// The cursor moved inside the window.
    MouseMoved,
    /// Anything else.
    Other,
}

/// What the program has to do for an event.
#[derive(Clone, Copy, Debug, PartialEq, Eq, Structural)]
pub enum Action {
    /// Nothing.
    Nothing,
    /// Log the new size at diagnostic level and resize the window's backing
    /// surface to this width and height.
    ResizeSurface(u32, u32),
    /// Log the cursor's new coordinates at diagnostic level.
    LogMouseMoved,
}

/// One step of rendering a frame.
#[derive(Clone, Copy, Debug, PartialEq, Eq, Structural)]
pub enum RenderCommand {
    /// Clear the render target to the colour given as red, green, blue and
    /// alpha, each from 0 to 255.
    Clear(u8, u8, u8, u8),
    /// Draw the quad: one indexed draw call with the bound pipeline.
    Draw,
    /// Submit the queued commands to the device.
    Flush,
    /// Swap the window's buffers.
    Present,
    /// Let the device release what the frame used.
    Cleanup,
}

/// Whether the loop is still going.
#[derive(Clone, Copy, Debug, PartialEq, Eq, Structural)]
pub enum LoopState {
    Running,
    Stopped,
}

/// Width and height of the window's backing surface, in pixels.
#[derive(Clone, Copy, Debug, PartialEq, Eq, Structural)]
pub struct Surface {
    pub width: u32,
    pub height: u32,
}

/// What the loop knows: whether it is running, and how large the surface is.
#[derive(Clone, Copy, Debug, PartialEq, Eq, Structural)]
pub struct EventLoop {
    pub state: LoopState,
    pub surface: Surface,
}

/// An event stops the loop when the window is closed or Escape goes down.
pub open spec fn stops(event: Event) -> bool {
    event == Event::Closed || event == Event::KeyDown(Key::Escape)
}

/// A size is taken over when both its width and its height are positive.
pub open spec fn size_accepted(width: u32, height: u32) -> bool {
    width > 0 && height > 0
}

/// The state after an event: stopped once a stopping event came, else as before.
pub open spec fn state_after(state: LoopState, event: Event) -> LoopState {
    if stops(event) {
        LoopState::Stopped
    } else {
        state
    }
}

/// The surface after an event: the new size for an accepted resize, else as
/// before.
pub open spec fn surface_after(surface: Surface, event: Event) -> Surface {
    match event {
        Event::Resized(width, height) if size_accepted(width, height) => Surface { width, height },
        _ => surface,
    }
}

/// The loop after an event.
pub open spec fn loop_after(l: EventLoop, event: Event) -> EventLoop {
    EventLoop { state: state_after(l.state, event), surface: surface_after(l.surface, event) }
}

/// What the program has to do for an event.
pub open spec fn action_for(event: Event) -> Action {
    match event {
        Event::Resized(width, height) if size_accepted(width, height) => Action::ResizeSurface(
            width,
            height,
        ),
        Event::MouseMoved => Action::LogMouseMoved,
        _ => Action::Nothing,
    }
}

/// The loop after a run of events, taken in order.
pub open spec fn loop_after_all(l: EventLoop, events: Seq<Event>) -> EventLoop
    decreases events.len(),
{
    if events.len() == 0 {
        l
    } else {
        loop_after(loop_after_all(l, events.drop_last()), events.last())
    }
}

/// The commands of one frame, in order: clear to opaque black, draw, flush,
/// present, clean up.
pub open spec fn frame_commands_spec() -> Seq<RenderCommand> {
    seq![
        RenderCommand::Clear(0, 0, 0, 255),
        RenderCommand::Draw,
        RenderCommand::Flush,
        RenderCommand::Present,
        RenderCommand::Cleanup,
    ]
}

/// The events of each batch as sequences.
pub open spec fn batch_views(batches: Seq<Vec<Event>>) -> Seq<Seq<Event>> {
    batches.map_values(|b: Vec<Event>| b@)
}

/// How many frames are rendered when the loop starts as `l` and iteration `i`
/// finds the events `batches[i]` pending: none once the loop has stopped, and
/// else one for each iteration, the one in which the stopping event comes
/// included.
pub open spec fn frames_rendered(l: EventLoop, batches: Seq<Seq<Event>>) -> nat
    decreases batches.len(),
{
    if l.state == LoopState::Stopped || batches.len() == 0 {
        0
    } else {
        1 + frames_rendered(loop_after_all(l, batches.first()), batches.drop_first())
    }
}

/// The loop after those iterations: the batches are taken until the loop has
/// stopped, and the rest is left untouched.
pub open spec fn loop_after_run(l: EventLoop, batches: Seq<Seq<Event>>) -> EventLoop
    decreases batches.len(),
{
    if l.state == LoopState::Stopped || batches.len() == 0 {
        l
    } else {
        loop_after_run(loop_after_all(l, batches.first()), batches.drop_first())
    }
}

/// Some event of the batch stops the loop.
pub open spec fn batch_stops(events: Seq<Event>) -> bool {
    exists|i: int| 0 <= i < events.len() && stops(#[trigger] events[i])
}

impl EventLoop {
    /// A running loop over a surface of the given size.
    pub fn new(width: u32, height: u32) -> (r: EventLoop)
        ensures
            r == (EventLoop { state: LoopState::Running, surface: Surface { width, height } }),
    {
        EventLoop { state: LoopState::Running, surface: Surface { width, height } }
    }

    /// Whether the loop goes round again.
    pub fn is_running(&self) -> (r: bool)
        ensures
            r == (self.state == LoopState::Running),
    {
        match self.state {
            LoopState::Running => true,
            LoopState::Stopped => false,
        }
    }

    /// Takes one event: a close or Escape stops the loop, a resize to a
    /// positive size is taken over, a resize with a zero side is dropped.
    /// Returns what the program has to do.
    pub fn handle_event(&mut self, event: Event) -> (action: Action)
        ensures
            *final(self) == loop_after(*old(self), event),
            action == action_for(event),
            stops(event) ==> final(self).state == LoopState::Stopped,
            old(self).state == LoopState::Stopped ==> final(self).state == LoopState::Stopped,
            event matches Event::Resized(width, height) ==> final(self).surface == (if width > 0
                && height > 0 {
                Surface { width, height }
            } else {
                old(self).surface
            }),
    {
        match event {
            Event::Closed => {
                self.state = LoopState::Stopped;
                Action::Nothing
            },
            Event::KeyDown(Key::Escape) => {
                self.state = LoopState::Stopped;
                Action::Nothing
            },
            Event::KeyDown(Key::Other) => Action::Nothing,
            Event::Resized(width, height) => {
                if width > 0 && height > 0 {
                    self.surface = Surface { width, height };
                    Action::ResizeSurface(width, height)
                } else {
                    Action::Nothing
                }
            },
            Event::MouseMoved => Action::LogMouseMoved,
            Event::Other => Action::Nothing,
        }
    }

    /// Takes all the events that were pending, in order, and returns the
    /// action for each. Events that follow a stopping event are still handled.
    pub fn handle_events(&mut self, events: &Vec<Event>) -> (actions: Vec<Action>)
        ensures
            *final(self) == loop_after_all(*old(self), events@),
            actions@ == events@.map_values(|e: Event| action_for(e)),
    {
        let mut actions: Vec<Action> = Vec::new();
        let mut i: usize = 0;
        while i < events.len()
            invariant
                0 <= i <= events@.len(),
                *self == loop_after_all(*old(self), events@.take(i as int)),
                actions@ == events@.take(i as int).map_values(|e: Event| action_for(e)),
            decreases events@.len() - i,
        {
            let action = self.handle_event(events[i]);
            actions.push(action);
            proof {
                let next = events@.take(i + 1);
                assert(next.drop_last() =~= events@.take(i as int));
                assert(next.last() == events@[i as int]);
                assert(actions@ =~= next.map_values(|e: Event| action_for(e)));
            }
            i = i + 1;
        }
        assert(events@.take(i as int) =~= events@);
        actions
    }

    /// The commands of one frame, in the order in which they are performed.
    /// They are the same whether the loop is running or has just been
    /// stopped: the iteration in which the loop stops still renders its frame.
    pub fn frame_commands(&self) -> (r: Vec<RenderCommand>)
        ensures
            r@ == frame_commands_spec(),
    {
        let mut r: Vec<RenderCommand> = Vec::new();
        r.push(RenderCommand::Clear(0, 0, 0, 255));
        r.push(RenderCommand::Draw);
        r.push(RenderCommand::Flush);
        r.push(RenderCommand::Present);
        r.push(RenderCommand::Cleanup);
        assert(r@ =~= frame_commands_spec());
        r
    }

    /// Runs the loop over events that are known beforehand: while the loop is
    /// running, the next batch is handled and one frame is counted. Returns
    /// the number of frames.
    pub fn replay(&mut self, batches: &Vec<Vec<Event>>) -> (frames: usize)
        ensures
            frames == frames_rendered(*old(self), batch_views(batches@)),
            *final(self) == loop_after_run(*old(self), batch_views(batches@)),
            frames <= batches@.len(),
    {
        let ghost all = batch_views(batches@);
        let mut frames: usize = 0;
        let mut i: usize = 0;
        assert(all.skip(0) =~= all);
        while i < batches.len() && self.is_running()
            invariant
                0 <= i <= batches@.len(),
                frames <= i,
                all == batch_views(batches@),
                frames_rendered(*old(self), all) == frames + frames_rendered(*self, all.skip(i as int)),
                loop_after_run(*old(self), all) == loop_after_run(*self, all.skip(i as int)),
            decreases batches@.len() - i,
        {
            proof {
                assert(all.skip(i as int).first() == batches@[i as int]@);
                assert(all.skip(i as int).drop_first() =~= all.skip(i + 1));
            }
            let _ = self.handle_events(&batches[i]);
            frames = frames + 1;
            i = i + 1;
        }
        frames
    }
}

/// Once stopped, the loop stays stopped whatever events follow; and a run of
/// events stops a running loop exactly when one of them is a stopping event.
pub proof fn stopped_is_terminal(l: EventLoop, events: Seq<Event>)
    ensures
        l.state == LoopState::Stopped ==> loop_after_all(l, events).state == LoopState::Stopped,
        (loop_after_all(l, events).state == LoopState::Stopped) == (l.state == LoopState::Stopped
            || batch_stops(events)),
    decreases events.len(),
{
    if events.len() > 0 {
        let init = events.drop_last();
        stopped_is_terminal(l, init);
        if batch_stops(events) {
            let i = choose|i: int| 0 <= i < events.len() && stops(#[trigger] events[i]);
            if i < init.len() {
                assert(stops(init[i]));
            }
        }
        if batch_stops(init) {
            let i = choose|i: int| 0 <= i < init.len() && stops(#[trigger] init[i]);
            assert(stops(events[i]));
        }
        if stops(events.last()) {
            assert(stops(events[events.len() - 1]));
        }
    }
}

/// A resize to a positive width and height sets the surface to exactly that
/// size; a resize with a zero side leaves the surface as it was. Neither
/// touches the running state.
pub proof fn resize_sets_surface(l: EventLoop, width: u32, height: u32)
    ensures
        width > 0 && height > 0 ==> loop_after(l, Event::Resized(width, height)).surface == (Surface {
            width,
            height,
        }) && action_for(Event::Resized(width, height)) == Action::ResizeSurface(width, height),
        width == 0 || height == 0 ==> loop_after(l, Event::Resized(width, height)).surface
            == l.surface && action_for(Event::Resized(width, height)) == Action::Nothing,
        loop_after(l, Event::Resized(width, height)).state == l.state,
{
}

/// When a stopping event is already pending in the first iteration of a
/// running loop, exactly one frame is rendered, the loop is then stopped, and
/// the program ends with the exit code of success, which is zero.
pub proof fn stop_in_first_batch_renders_one_frame(l: EventLoop, batches: Seq<Seq<Event>>)
    requires
        l.state == LoopState::Running,
        batches.len() > 0,
        batch_stops(batches.first()),
    ensures
        frames_rendered(l, batches) == 1,
        loop_after_run(l, batches).state == LoopState::Stopped,
        exit_code_spec(Outcome::Finished) == EXIT_SUCCESS,
        EXIT_SUCCESS == 0,
{
    stopped_is_terminal(l, batches.first());
    let next = loop_after_all(l, batches.first());
    assert(frames_rendered(next, batches.drop_first()) == 0);
    assert(loop_after_run(next, batches.drop_first()) == next);
}

/// A running loop over batches of which none holds a stopping event renders
/// one frame for each batch and is still running afterwards.
pub proof fn frames_follow_batches(l: EventLoop, batches: Seq<Seq<Event>>)
    requires
        l.state == LoopState::Running,
        forall|i: int| 0 <= i < batches.len() ==> !batch_stops(#[trigger] batches[i]),
    ensures
        frames_rendered(l, batches) == batches.len(),
        loop_after_run(l, batches).state == LoopState::Running,
    decreases batches.len(),
{
    if batches.len() > 0 {
        stopped_is_terminal(l, batches.first());
        assert(!batch_stops(batches[0]));
        let rest = batches.drop_first();
        assert forall|i: int| 0 <= i < rest.len() implies !batch_stops(#[trigger] rest[i]) by {
            assert(rest[i] == batches[i + 1]);
        }
        frames_follow_batches(loop_after_all(l, batches.first()), rest);
    }
}

/// A running loop renders one frame for each batch up to and including the
/// first that holds a stopping event, and is stopped afterwards: when batch
/// `k`, counted from zero, is the first to stop the loop, `k + 1` frames are
/// rendered.
pub proof fn frames_until_first_stop(l: EventLoop, batches: Seq<Seq<Event>>, k: int)
    requires
        l.state == LoopState::Running,
        0 <= k < batches.len(),
        batch_stops(batches[k]),
        forall|i: int| 0 <= i < k ==> !batch_stops(#[trigger] batches[i]),
    ensures
        frames_rendered(l, batches) == k + 1,
        loop_after_run(l, batches).state == LoopState::Stopped,
    decreases k,
{
    if k == 0 {
        stop_in_first_batch_renders_one_frame(l, batches);
    } else {
        stopped_is_terminal(l, batches.first());
        assert(!batch_stops(batches[0]));
        let rest = batches.drop_first();
        assert(rest[k - 1] == batches[k]);
        assert forall|i: int| 0 <= i < k - 1 implies !batch_stops(#[trigger] rest[i]) by {
            assert(rest[i] == batches[i + 1]);
        }
        frames_until_first_stop(loop_after_all(l, batches.first()), rest, k - 1);
    }
}

} // verus!
