//! Control logic for a minimal "clear the screen" graphics application.
//!
//! The library models the decisions a windowed GPU application makes:
//! how the presentable surface is configured from the adapter's
//! capabilities, how resize events update that configuration, and how
//! window events and per-frame render outcomes translate into actions
//! (reconfigure, render, request another redraw, exit). The platform
//! window, the event loop and the GPU calls themselves live outside the
//! library; they hand plain values in and carry the decided actions out.

pub mod config;
pub mod laws;
pub mod shell;
pub mod state;
