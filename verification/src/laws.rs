//! The laws the event handling obeys, proved over the specification
//! functions that the executable functions' contracts are stated with.

use vstd::prelude::*;

use crate::config::SurfaceConfig;
use crate::state::{spec_recovered_config, spec_redraw_decision, spec_resize, RedrawDecision,
    RenderOutcome};

verus! {

/// A resize to a zero-area size is a no-op: the stored surface
/// configuration is unchanged.
pub proof fn lemma_resize_zero_is_noop(c: SurfaceConfig, width: u32, height: u32)
    requires
        width == 0 || height == 0,
    ensures
        spec_resize(c, width, height) == c,
{
}

/// A resize to a strictly positive size stores exactly the event's
/// dimensions and changes nothing else of the configuration.
pub proof fn lemma_resize_stores_new_size(c: SurfaceConfig, width: u32, height: u32)
    requires
        width > 0,
        height > 0,
    ensures
        spec_resize(c, width, height) == (SurfaceConfig {
            width,
            height,
            ..c
        }),
{
}

/// Two successful renders in a row, with no resize in between, are
/// independent: each leaves the stored configuration unchanged and each
/// asks for exactly one further redraw and nothing else.
pub proof fn lemma_render_twice_is_stateless(
    c: SurfaceConfig,
    w1: u32,
    h1: u32,
    w2: u32,
    h2: u32,
)
    ensures
        spec_recovered_config(
            spec_recovered_config(c, RenderOutcome::Presented, w1, h1),
            RenderOutcome::Presented,
            w2,
            h2,
        ) == c,
        spec_redraw_decision(RenderOutcome::Presented, w1, h1) == (RedrawDecision {
            exit: false,
            reconfigure: false,
            request_redraw: true,
        }),
{
}

/// Recovery from a lost surface uses the window's size as it is at
/// recovery time, whatever size the configuration stored before.
pub proof fn lemma_lost_recovers_with_current_size(
    c: SurfaceConfig,
    current_width: u32,
    current_height: u32,
)
    requires
        current_width > 0,
        current_height > 0,
    ensures
        spec_recovered_config(
            c,
            RenderOutcome::SurfaceLost,
            current_width,
            current_height,
        ).width == current_width,
        spec_recovered_config(
            c,
            RenderOutcome::SurfaceLost,
            current_width,
            current_height,
        ).height == current_height,
        spec_redraw_decision(RenderOutcome::SurfaceLost, current_width, current_height)
            == (RedrawDecision { exit: false, reconfigure: true, request_redraw: true }),
{
}

/// An out-of-memory render outcome terminates the event loop, queues no
/// further redraw, and leaves the stored configuration as it was.
pub proof fn lemma_out_of_memory_stops_the_loop(
    c: SurfaceConfig,
    current_width: u32,
    current_height: u32,
)
    ensures
        spec_redraw_decision(RenderOutcome::OutOfMemory, current_width, current_height)
            == (RedrawDecision { exit: true, reconfigure: false, request_redraw: false }),
        spec_recovered_config(c, RenderOutcome::OutOfMemory, current_width, current_height) == c,
{
}

} // verus!
