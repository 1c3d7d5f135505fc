//! The event-loop state machine.
//!
//! The demo has exactly two loop states, running and exiting, with a single
//! transition on a window-close request. Every other decision the loop makes
//! is a pure function of the incoming event: redraw ticks advance the clock
//! and ask for a render, idle-cycle ends ask for another redraw, and all
//! remaining events are ignored. The unverified renderer performs the
//! returned action and feeds the next event back in.

use vstd::prelude::*;

use crate::frame::FrameState;

verus! {

/// The platform events the loop distinguishes.
#[derive(Clone, Copy, Debug, PartialEq, Eq, Structural)]
pub enum Event {
    /// The window was asked to close.
    CloseRequested,
    /// Any other event aimed at the window.
    OtherWindow,
    /// An idle cycle finished; the loop keeps the animation going by asking
    /// for another redraw.
    RedrawEventsCleared,
    /// The window should be repainted.
    RedrawRequested,
    /// Any event the loop does not look at.
    Other,
}

/// What the renderer should do next.
#[derive(Clone, Copy, Debug, PartialEq, Eq, Structural)]
pub enum Action {
    /// Leave the event loop.
    Exit,
    /// Ask the platform for another redraw.
    RequestRedraw,
    /// Repaint the frame with the current clock's uniforms.
    Render,
    /// Nothing.
    Idle,
}

/// The whole loop state: the frame clock, and whether the loop is still
/// running.
#[derive(Clone, Copy, Debug, PartialEq, Eq, Structural)]
pub struct App {
    /// The per-frame clock.
    pub frame: FrameState,
    /// False once a close was requested.
    pub running: bool,
}

impl App {
    /// The loop state is well formed when its clock is.
    pub open spec fn wf(self) -> bool {
        self.frame.wf()
    }

    /// A fresh loop: clock at zero, running.
    pub fn new() -> (a: App)
        ensures
            a.frame == FrameState::spec_new(),
            a.running,
            a.wf(),
    {
        App { frame: FrameState::new(), running: true }
    }

    /// Decides what one event does: a close request stops the loop, a redraw
    /// tick advances the clock and renders, an idle-cycle end requests the
    /// next redraw, and everything else is ignored.
    pub fn handle_event(&mut self, event: Event) -> (action: Action)
        requires
            old(self).wf(),
            old(self).frame.frames < u32::MAX,
        ensures
            final(self).wf(),
            event == Event::CloseRequested ==> !final(self).running
                && final(self).frame == old(self).frame
                && action == Action::Exit,
            event == Event::RedrawEventsCleared ==> *final(self) == *old(self)
                && action == Action::RequestRedraw,
            event == Event::RedrawRequested ==> final(self).running == old(self).running
                && final(self).frame == old(self).frame.spec_advance()
                && action == Action::Render,
            event == Event::OtherWindow || event == Event::Other ==> *final(self) == *old(self)
                && action == Action::Idle,
    {
        match event {
            Event::CloseRequested => {
                self.running = false;
                Action::Exit
            },
            Event::RedrawEventsCleared => Action::RequestRedraw,
            Event::RedrawRequested => {
                self.frame.advance();
                Action::Render
            },
            Event::OtherWindow => Action::Idle,
            Event::Other => Action::Idle,
        }
    }
}

} // verus!
