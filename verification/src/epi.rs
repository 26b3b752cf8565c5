//! The surface between the host application and the framework: startup
//! options, the viewport specification a window is created from, the
//! per-frame handle, and the `App` trait a host implements.

use vstd::prelude::*;

use crate::context::{RawInput, UiContext};
use crate::geom::{Pos2, Vec2};
use crate::storage::Storage;

verus! {

/// Which graphics backend paints the UI.
#[derive(Clone, Copy, Debug, PartialEq, Eq, Structural)]
pub enum Renderer {
    /// The OpenGL-style backend.
    Glow,
    /// The modern low-level graphics backend.
    Wgpu,
}

/// What the root window should look like; unset fields fall back to
/// platform defaults.
#[derive(Debug)]
pub struct ViewportBuilder {
    /// Window title; defaults to the application name.
    pub title: Option<String>,
    /// Requested outer position, in logical units.
    pub position: Option<Pos2>,
    /// Requested inner size, in logical units.
    pub inner_size: Option<Vec2>,
    /// Whether the window starts maximized.
    pub maximized: Option<bool>,
    /// Whether a requested or restored size is clamped to the largest
    /// monitor; unset means yes.
    pub clamp_size_to_monitor_size: Option<bool>,
    /// Handle of a host-registered window icon; unset means the embedded
    /// default icon.
    pub icon: Option<u64>,
}

impl ViewportBuilder {
    /// A builder with every field unset.
    pub fn new() -> (r: ViewportBuilder)
        ensures
            r.title is None,
            r.position is None,
            r.inner_size is None,
            r.maximized is None,
            r.clamp_size_to_monitor_size is None,
            r.icon is None,
    {
        ViewportBuilder {
            title: None,
            position: None,
            inner_size: None,
            maximized: None,
            clamp_size_to_monitor_size: None,
            icon: None,
        }
    }

    /// The same builder with the position set.
    pub fn with_position(self, pos: Pos2) -> (r: ViewportBuilder)
        ensures
            r.position == Some(pos),
            r.title == self.title,
            r.inner_size == self.inner_size,
            r.maximized == self.maximized,
            r.clamp_size_to_monitor_size == self.clamp_size_to_monitor_size,
            r.icon == self.icon,
    {
        ViewportBuilder { position: Some(pos), ..self }
    }

    /// The same builder with the inner size set.
    pub fn with_inner_size(self, size: Vec2) -> (r: ViewportBuilder)
        ensures
            r.inner_size == Some(size),
            r.title == self.title,
            r.position == self.position,
            r.maximized == self.maximized,
            r.clamp_size_to_monitor_size == self.clamp_size_to_monitor_size,
            r.icon == self.icon,
    {
        ViewportBuilder { inner_size: Some(size), ..self }
    }
}

/// Startup options of a native run.
#[derive(Debug)]
pub struct NativeOptions {
    /// The root window specification.
    pub viewport: ViewportBuilder,
    /// Which backend paints.
    pub renderer: Renderer,
    /// Whether the root window is centered on the primary monitor.
    pub centered: bool,
    /// Whether window geometry is persisted on save.
    pub persist_window: bool,
}

/// Telemetry the framework reports to the application.
#[derive(Clone, Copy, Debug, PartialEq, Eq, Structural)]
pub struct IntegrationInfo {
    /// CPU time of the last completed frame, in microseconds.
    pub cpu_usage_micros: Option<u64>,
}

/// The per-frame handle the application receives: telemetry and the
/// persistence store, if one is configured.
#[derive(Debug)]
pub struct Frame {
    /// Telemetry of the last frame.
    pub info: IntegrationInfo,
    /// The persistence store; absent when persistence is disabled.
    pub storage: Option<Storage>,
}

/// What a host application implements. The framework calls these once per
/// frame or save; their behaviour is the application's own.
pub trait App {
    /// Build the UI of one pass.
    fn update(&mut self, ctx: &mut UiContext, frame: &mut Frame);

    /// Persist application state into the store.
    fn save(&mut self, storage: &mut Storage) {
    }

    /// Mutate the raw input before a pass reads it.
    fn raw_input_hook(&mut self, ctx: &UiContext, raw_input: &mut RawInput) {
    }

    /// How long two automatic saves are at least apart, in milliseconds.
    fn auto_save_interval_millis(&self) -> u64 {
        30_000
    }

    /// Whether the UI memory blob is persisted on save.
    fn persist_egui_memory(&self) -> bool {
        true
    }
}

} // verus!
