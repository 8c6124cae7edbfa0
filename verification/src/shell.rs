//! The application shell: holds at most one graphics state, created on the
//! platform's first "resumed" signal, and forwards window events to it once
//! it exists.

use vstd::prelude::*;

use crate::state::{Directive, RedrawDecision, RenderOutcome, State, WindowEvent};
use crate::state::{spec_event_config, spec_event_directive, spec_recovered_config,
    spec_redraw_decision};

verus! {

/// The shell the platform event loop drives. Before the first "resumed"
/// signal it holds nothing; afterwards it holds the graphics state and
/// forwards every window event to it. Events that arrive while no state
/// exists are dropped silently.
#[derive(Clone, Copy, PartialEq, Eq, Debug)]
pub struct Shell {
    pub graphics: Option<State>,
}

impl Shell {
    /// A shell with no window and no graphics state yet.
    pub fn new() -> (s: Self)
        ensures
            s.graphics is None,
    {
        Shell { graphics: None }
    }

    /// Whether the first "resumed" signal still has to create the window
    /// and the graphics state.
    pub fn needs_window(&self) -> (b: bool)
        ensures
            b == (self.graphics is None),
    {
        self.graphics.is_none()
    }

    /// Store the graphics state created on the first "resumed" signal.
    /// Resource creation is deferred until the platform guarantees a valid
    /// display target, so this happens exactly once.
    pub fn install(&mut self, state: State)
        requires
            old(self).graphics is None,
        ensures
            final(self).graphics == Some(state),
    {
        self.graphics = Some(state);
    }

    /// Forward one window event to the graphics state, if one exists; a
    /// shell without a state drops the event and asks for nothing.
    pub fn window_event(&mut self, event: WindowEvent) -> (d: Directive)
        ensures
            old(self).graphics is None ==> final(self).graphics == old(self).graphics && d == Directive::Ignore,
            old(self).graphics matches Some(g) ==> {
                &&& final(self).graphics matches Some(g2)
                &&& g2.config == spec_event_config(g.config, event)
                &&& d == spec_event_directive(event)
            },
    {
        match &mut self.graphics {
            Some(state) => state.window_event(event),
            None => Directive::Ignore,
        }
    }

    /// Forward the outcome of one render attempt to the graphics state, if
    /// one exists; a shell without a state decides nothing.
    pub fn after_render(
        &mut self,
        outcome: RenderOutcome,
        current_width: u32,
        current_height: u32,
    ) -> (d: RedrawDecision)
        ensures
            old(self).graphics is None ==> final(self).graphics == old(self).graphics && d == (RedrawDecision {
                exit: false,
                reconfigure: false,
                request_redraw: false,
            }),
            old(self).graphics matches Some(g) ==> {
                &&& final(self).graphics matches Some(g2)
                &&& g2.config == spec_recovered_config(
                    g.config,
                    outcome,
                    current_width,
                    current_height,
                )
                &&& d == spec_redraw_decision(outcome, current_width, current_height)
            },
    {
        match &mut self.graphics {
            Some(state) => state.after_render(outcome, current_width, current_height),
            None => RedrawDecision { exit: false, reconfigure: false, request_redraw: false },
        }
    }
}

} // verus!
