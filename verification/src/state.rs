//! The graphics state: the stored surface configuration, the resize
//! operation, window-event dispatch, and the handling of per-frame render
//! outcomes.

use vstd::prelude::*;

use crate::config::{build_config, spec_initial_config, SurfaceCaps, SurfaceConfig};

verus! {

/// A platform window event, reduced to the variants the application reacts
/// to. A resize carries the window's current pixel size, re-queried when
/// the event is delivered.
#[derive(Clone, Copy, PartialEq, Eq, Structural, Debug)]
pub enum WindowEvent {
    CloseRequested,
    Resized { width: u32, height: u32 },
    RedrawRequested,
    Other,
}

/// The action a window event asks of the surrounding event loop.
#[derive(Clone, Copy, PartialEq, Eq, Structural, Debug)]
pub enum Directive {
    /// Terminate the event loop.
    Exit,
    /// Re-apply the stored configuration to the surface.
    Reconfigure,
    /// Acquire, clear and present one frame, then report the outcome.
    Render,
    /// Do nothing.
    Ignore,
}

/// What one render attempt came to: a presented frame, or the kind of
/// surface error that stopped it.
#[derive(Clone, Copy, PartialEq, Eq, Structural, Debug)]
pub enum RenderOutcome {
    /// The frame was cleared, submitted and presented.
    Presented,
    /// The surface was lost and must be reconfigured.
    SurfaceLost,
    /// The graphics device is out of memory; rendering cannot continue.
    OutOfMemory,
    /// Any other per-frame error, for instance a timeout; skipped.
    FrameError,
}

/// The actions decided after one render attempt.
#[derive(Clone, Copy, PartialEq, Eq, Structural, Debug)]
pub struct RedrawDecision {
    /// Terminate the event loop.
    pub exit: bool,
    /// Re-apply the stored configuration to the surface.
    pub reconfigure: bool,
    /// Queue another redraw to keep the render loop running.
    pub request_redraw: bool,
}

/// The configuration after a resize: a strictly positive size replaces the
/// stored dimensions; a zero-area size leaves the record unchanged.
pub open spec fn spec_resize(c: SurfaceConfig, width: u32, height: u32) -> SurfaceConfig {
    if width > 0 && height > 0 {
        SurfaceConfig {
            usage: c.usage,
            format: c.format,
            width: width,
            height: height,
            present_mode: c.present_mode,
            alpha_mode: c.alpha_mode,
            desired_maximum_frame_latency: c.desired_maximum_frame_latency,
        }
    } else {
        c
    }
}

/// The action each window event asks for: close terminates the loop, an
/// accepted resize reconfigures the surface, a redraw request renders, and
/// everything else is dropped.
pub open spec fn spec_event_directive(e: WindowEvent) -> Directive {
    match e {
        WindowEvent::CloseRequested => Directive::Exit,
        WindowEvent::Resized { width, height } => if width > 0 && height > 0 {
            Directive::Reconfigure
        } else {
            Directive::Ignore
        },
        WindowEvent::RedrawRequested => Directive::Render,
        WindowEvent::Other => Directive::Ignore,
    }
}

/// The configuration after a window event: only a resize touches it.
pub open spec fn spec_event_config(c: SurfaceConfig, e: WindowEvent) -> SurfaceConfig {
    match e {
        WindowEvent::Resized { width, height } => spec_resize(c, width, height),
        _ => c,
    }
}

/// The configuration after one render attempt is handled: a lost surface
/// is recovered by resizing to the window's current size; every other
/// outcome leaves the record unchanged.
pub open spec fn spec_recovered_config(
    c: SurfaceConfig,
    outcome: RenderOutcome,
    current_width: u32,
    current_height: u32,
) -> SurfaceConfig {
    match outcome {
        RenderOutcome::SurfaceLost => spec_resize(c, current_width, current_height),
        _ => c,
    }
}

/// The actions decided after one render attempt: out of memory terminates
/// the loop and queues nothing further; a lost surface reconfigures (when
/// the current size allows it) and continues; a presented frame or any
/// other error just queues the next redraw.
pub open spec fn spec_redraw_decision(
    outcome: RenderOutcome,
    current_width: u32,
    current_height: u32,
) -> RedrawDecision {
    match outcome {
        RenderOutcome::OutOfMemory => RedrawDecision {
            exit: true,
            reconfigure: false,
            request_redraw: false,
        },
        RenderOutcome::SurfaceLost => RedrawDecision {
            exit: false,
            reconfigure: current_width > 0 && current_height > 0,
            request_redraw: true,
        },
        _ => RedrawDecision { exit: false, reconfigure: false, request_redraw: true },
    }
}

/// The graphics state the application owns: the stored surface
/// configuration. The GPU objects it configures (instance, surface,
/// adapter, device, queue) live with the caller, which applies every
/// decided action to them.
#[derive(Clone, Copy, PartialEq, Eq, Structural, Debug)]
pub struct State {
    pub config: SurfaceConfig,
}

impl State {
    /// Build the state for a window of the given current size, from the
    /// capabilities the surface reports for the chosen adapter.
    pub fn new(width: u32, height: u32, caps: &SurfaceCaps) -> (s: Self)
        requires
            caps.formats@.len() > 0,
            caps.present_modes@.len() > 0,
            caps.alpha_modes@.len() > 0,
        ensures
            s.config == spec_initial_config(
                width,
                height,
                caps.formats@,
                caps.present_modes@,
                caps.alpha_modes@,
            ),
    {
        State { config: build_config(width, height, caps) }
    }

    /// The stored surface configuration.
    pub fn config(&self) -> (c: SurfaceConfig)
        ensures
            c == self.config,
    {
        self.config
    }

    /// Update the stored dimensions to a new window size. A strictly
    /// positive size is stored and asks the caller to reconfigure the
    /// surface once; a zero-area size (a minimized window) is a no-op.
    pub fn resize(&mut self, width: u32, height: u32) -> (reconfigure: bool)
        ensures
            final(self).config == spec_resize(old(self).config, width, height),
            reconfigure == (width > 0 && height > 0),
    {
        if width > 0 && height > 0 {
            self.config.width = width;
            self.config.height = height;
            true
        } else {
            false
        }
    }

    /// React to one window event: update the stored configuration for a
    /// resize and say which action the event loop must take.
    pub fn window_event(&mut self, event: WindowEvent) -> (d: Directive)
        ensures
            final(self).config == spec_event_config(old(self).config, event),
            d == spec_event_directive(event),
    {
        match event {
            WindowEvent::CloseRequested => Directive::Exit,
            WindowEvent::Resized { width, height } => {
                if self.resize(width, height) {
                    Directive::Reconfigure
                } else {
                    Directive::Ignore
                }
            },
            WindowEvent::RedrawRequested => Directive::Render,
            WindowEvent::Other => Directive::Ignore,
        }
    }

    /// Handle the outcome of one render attempt. `current_width` and
    /// `current_height` are the window's size as re-queried at handling
    /// time; a lost surface recovers with exactly that size.
    pub fn after_render(
        &mut self,
        outcome: RenderOutcome,
        current_width: u32,
        current_height: u32,
    ) -> (d: RedrawDecision)
        ensures
            final(self).config == spec_recovered_config(
                old(self).config,
                outcome,
                current_width,
                current_height,
            ),
            d == spec_redraw_decision(outcome, current_width, current_height),
    {
        match outcome {
            RenderOutcome::OutOfMemory => RedrawDecision {
                exit: true,
                reconfigure: false,
                request_redraw: false,
            },
            RenderOutcome::SurfaceLost => {
                let reconfigure = self.resize(current_width, current_height);
                RedrawDecision { exit: false, reconfigure, request_redraw: true }
            },
            _ => RedrawDecision { exit: false, reconfigure: false, request_redraw: true },
        }
    }
}

} // verus!
