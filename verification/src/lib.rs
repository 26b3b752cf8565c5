//! Core logic of a native GUI application framework: it owns the
//! immediate-mode UI context across frames, decides when a window closes,
//! accumulates per-pass UI output for the rendering backends, restores and
//! persists window geometry, and schedules repaints for the event loop.
//!
//! Window coordinates, sizes and times are modelled in whole logical units
//! (positions and sizes as `i64`, times as milliseconds in `u64`); the host
//! that talks to the real windowing layer converts at the boundary.

use vstd::prelude::*;

pub mod align;
pub mod codec;
pub mod context;
pub mod epi;
pub mod epi_integration;
pub mod geom;
pub mod output;
pub mod settings;
pub mod storage;
pub mod winit_integration;

use crate::epi::{NativeOptions, Renderer};

verus! {

/// Short for a result with this crate's [`Error`].
pub type Result<T, E = Error> = core::result::Result<T, E>;

/// What the native runner layer provides: one event-loop entry per
/// graphics backend, plus the constructors used when the host owns the
/// event loop. The framework picks exactly one backend at startup and
/// never mixes them at runtime.
pub trait BackendRunner {
    /// The application wrapper handed back when the host owns the loop.
    type Created;

    /// Run the native event loop with the OpenGL-style backend.
    fn run_glow(&mut self, app_name: &str, native_options: NativeOptions) -> Result<(), Error>;

    /// Run the native event loop with the low-level graphics backend.
    fn run_wgpu(&mut self, app_name: &str, native_options: NativeOptions) -> Result<(), Error>;

    /// Build the application wrapper for the OpenGL-style backend.
    fn create_glow(&mut self, app_name: &str, native_options: NativeOptions) -> Self::Created;

    /// Build the application wrapper for the low-level graphics backend.
    fn create_wgpu(&mut self, app_name: &str, native_options: NativeOptions) -> Self::Created;
}

/// Resolve the startup configuration: the application name becomes the
/// window title when none is set, and the configured renderer is returned
/// for the dispatch. The host must have checked that the screenshot
/// override variable is absent from the environment: its presence outside
/// a test-harness build is a programmer error that startup stops with an
/// assertion, so it is excluded here by precondition.
pub fn init_native(
    app_name: &str,
    native_options: &mut NativeOptions,
    screenshot_env_set: bool,
) -> (r: Renderer)
    requires
        !screenshot_env_set,
    ensures
        r == old(native_options).renderer,
        final(native_options).renderer == old(native_options).renderer,
        match old(native_options).viewport.title {
            Some(t) => final(native_options).viewport.title == Some(t),
            None => final(native_options).viewport.title matches Some(t2) && t2@ == app_name@,
        },
        final(native_options).viewport.position == old(native_options).viewport.position,
        final(native_options).viewport.inner_size == old(native_options).viewport.inner_size,
        final(native_options).viewport.maximized == old(native_options).viewport.maximized,
        final(native_options).viewport.clamp_size_to_monitor_size == old(
            native_options,
        ).viewport.clamp_size_to_monitor_size,
        final(native_options).viewport.icon == old(native_options).viewport.icon,
        final(native_options).centered == old(native_options).centered,
        final(native_options).persist_window == old(native_options).persist_window,
{
    if native_options.viewport.title.is_none() {
        native_options.viewport.title = Some(String::from_str(app_name));
    }
    native_options.renderer
}

/// Start a native app: resolve the startup configuration, then hand the
/// whole run to the configured backend's event loop. What the run returns
/// is the backend's to decide; the resolution itself is pinned by
/// [`init_native`].
pub fn run_native<R: BackendRunner>(
    app_name: &str,
    native_options: NativeOptions,
    runner: &mut R,
    screenshot_env_set: bool,
) -> Result<(), Error>
    requires
        !screenshot_env_set,
{
    let mut native_options = native_options;
    let renderer = init_native(app_name, &mut native_options, screenshot_env_set);
    match renderer {
        Renderer::Glow => runner.run_glow(app_name, native_options),
        Renderer::Wgpu => runner.run_wgpu(app_name, native_options),
    }
}

/// Build a native app for a host-owned event loop: the same resolution and
/// dispatch as [`run_native`], but the backend only constructs the
/// application wrapper instead of running the loop.
pub fn create_native<R: BackendRunner>(
    app_name: &str,
    native_options: NativeOptions,
    runner: &mut R,
    screenshot_env_set: bool,
) -> R::Created
    requires
        !screenshot_env_set,
{
    let mut native_options = native_options;
    let renderer = init_native(app_name, &mut native_options, screenshot_env_set);
    match renderer {
        Renderer::Glow => runner.create_glow(app_name, native_options),
        Renderer::Wgpu => runner.create_wgpu(app_name, native_options),
    }
}

/// The different problems that can end a run: user startup code failing,
/// the windowing layer or its event loop failing, or one of the graphics
/// backends failing. Each variant carries the collaborator's message.
#[derive(Debug)]
pub enum Error {
    /// Something went wrong in user code when creating the app.
    AppCreation(String),
    /// A windowing-layer request failed.
    Winit(String),
    /// The native event loop failed.
    WinitEventLoop(String),
    /// The OpenGL-style backend's context layer failed.
    Glutin(String),
    /// No configuration of the OpenGL-style context layer matched; carries
    /// the template description and the underlying message.
    NoGlutinConfigs(String, String),
    /// The OpenGL-style painter failed.
    OpenGL(String),
    /// The modern low-level graphics backend failed.
    Wgpu(String),
}

/// The message a user sees for each error, naming the failed subsystem.
pub open spec fn spec_error_message(e: Error) -> Seq<char> {
    match e {
        Error::AppCreation(m) => "app creation error: "@ + m@,
        Error::Winit(m) => "winit error: "@ + m@,
        Error::WinitEventLoop(m) => "winit EventLoopError: "@ + m@,
        Error::Glutin(m) => "glutin error: "@ + m@,
        Error::NoGlutinConfigs(t, m) => "Found no glutin configs matching the template: "@ + t@
            + ". Error: "@ + m@,
        Error::OpenGL(m) => "egui_glow: "@ + m@,
        Error::Wgpu(m) => "WGPU error: "@ + m@,
    }
}

impl Error {
    /// A descriptive message identifying which subsystem failed.
    pub fn message(&self) -> (r: String)
        ensures
            r@ == spec_error_message(*self),
    {
        match self {
            Error::AppCreation(m) => String::from_str("app creation error: ").concat(m.as_str()),
            Error::Winit(m) => String::from_str("winit error: ").concat(m.as_str()),
            Error::WinitEventLoop(m) => String::from_str("winit EventLoopError: ").concat(
                m.as_str(),
            ),
            Error::Glutin(m) => String::from_str("glutin error: ").concat(m.as_str()),
            Error::NoGlutinConfigs(t, m) => String::from_str(
                "Found no glutin configs matching the template: ",
            ).concat(t.as_str()).concat(". Error: ").concat(m.as_str()),
            Error::OpenGL(m) => String::from_str("egui_glow: ").concat(m.as_str()),
            Error::Wgpu(m) => String::from_str("WGPU error: ").concat(m.as_str()),
        }
    }
}

} // verus!
