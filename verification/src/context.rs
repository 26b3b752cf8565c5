//! The shared immediate-mode UI context, as the integration layer sees it:
//! the persistent widget-memory blob, a few engine options, and the
//! accessibility state. The engine's own layout and painting state is
//! opaque and stays outside; what the integration reads and writes is here.

use vstd::prelude::*;

verus! {

/// The persistent state of the UI engine that the integration owns across
/// frames.
#[derive(Debug)]
pub struct UiContext {
    /// Serialized widget memory, restored at startup and saved with the app.
    pub memory: Vec<u8>,
    /// Whether child viewports are embedded into the root window instead of
    /// getting native windows of their own.
    pub embed_viewports: bool,
    /// How many passes the engine may run for one frame.
    pub max_passes: u32,
    /// Whether the accessibility bridge is active.
    pub accesskit_enabled: bool,
    /// Accessibility action requests waiting to be fed into the next pass.
    pub accesskit_actions: Vec<u64>,
}

/// The per-pass input handed to the UI engine, reduced to what the
/// integration layer itself reads and writes.
#[derive(Debug)]
pub struct RawInput {
    /// Seconds-origin timestamp of the pass, in milliseconds since the
    /// integration's start; stamped by the integration before the pass.
    pub time_millis: Option<u64>,
    /// Whether the native window asked this viewport to close.
    pub close_requested: bool,
}

} // verus!
