//! The event-loop driver contract: what a concrete backend implements to
//! answer native event-loop callbacks, the custom wake events, and the
//! scheduling result each handled event produces.

use vstd::prelude::*;

use crate::context::UiContext;
use crate::epi_integration::load_egui_memory;
use crate::output::ViewportId;
use crate::storage::Storage;
use crate::Error;

verus! {

/// Identifier of one native window.
#[derive(Clone, Copy, Debug, PartialEq, Eq, Structural)]
pub struct WindowId(pub u64);

/// A pointer button, as the windowing layer reports it.
#[derive(Clone, Copy, Debug, PartialEq, Eq, Structural)]
pub enum PointerButton {
    /// The primary (left) button.
    Primary,
    /// The secondary (right) button.
    Secondary,
    /// The middle button.
    Middle,
    /// Any other button, by number.
    Other(u64),
}

/// A native window event, reduced to what the integration reads.
#[derive(Clone, Copy, Debug, PartialEq, Eq, Structural)]
pub enum WindowEvent {
    /// The user asked the window to close.
    CloseRequested,
    /// A pointer button was pressed.
    PointerButtonPressed {
        /// Which button.
        button: PointerButton,
    },
    /// The window was resized to a new physical size.
    Resized {
        /// New width in physical pixels.
        width: u64,
        /// New height in physical pixels.
        height: u64,
    },
    /// The window needs repainting.
    RedrawRequested,
    /// Any other event, carried through opaquely.
    Other(u64),
}

/// A native device event, independent of any window.
#[derive(Clone, Copy, Debug, PartialEq, Eq, Structural)]
pub enum DeviceEvent {
    /// Relative pointer motion.
    PointerMotion {
        /// Horizontal movement.
        dx: i64,
        /// Vertical movement.
        dy: i64,
    },
    /// Any other event, carried through opaquely.
    Other(u64),
}

/// What the UI input translator reports about one handled window event.
#[derive(Clone, Copy, Debug, PartialEq, Eq, Structural)]
pub struct EventResponse {
    /// The UI consumed the event; the host should not act on it further.
    pub consumed: bool,
    /// The UI wants a repaint because of the event.
    pub repaint: bool,
}

/// An accessibility request addressed to one window.
#[derive(Clone, Copy, Debug, PartialEq, Eq, Structural)]
pub enum AccessKitWindowEvent {
    /// The platform adapter asks for the initial accessibility tree.
    InitialTreeRequested,
    /// The user triggered an accessibility action, by id.
    ActionRequested(u64),
    /// Accessibility support was deactivated.
    AccessibilityDeactivated,
}

/// An accessibility event together with its window.
#[derive(Clone, Copy, Debug, PartialEq, Eq, Structural)]
pub struct AccessKitEvent {
    /// The addressed window.
    pub window_id: WindowId,
    /// What happened.
    pub window_event: AccessKitWindowEvent,
}

/// The custom event the framework injects into the native event loop.
#[derive(Clone, Copy, Debug, PartialEq, Eq, Structural)]
pub enum UserEvent {
    /// A repaint is requested, possibly for a future instant.
    RequestRepaint {
        /// Which viewport to repaint.
        viewport_id: ViewportId,
        /// When to repaint, in milliseconds of the host clock.
        when_millis: u64,
        /// The cumulative pass number when the repaint was requested.
        cumulative_pass_nr: u64,
    },
    /// An accessibility request.
    AccessKitActionRequest(AccessKitEvent),
}

impl core::convert::From<AccessKitEvent> for UserEvent {
    fn from(inner: AccessKitEvent) -> (r: UserEvent) {
        UserEvent::AccessKitActionRequest(inner)
    }
}

impl vstd::std_specs::convert::FromSpecImpl<AccessKitEvent> for UserEvent {
    open spec fn obeys_from_spec() -> bool {
        true
    }

    open spec fn from_spec(inner: AccessKitEvent) -> UserEvent {
        UserEvent::AccessKitActionRequest(inner)
    }
}

/// What the event loop should do after one handled event. Exactly one is
/// produced per event; producing it never performs the action.
#[derive(Clone, Copy, Debug, PartialEq, Eq, Structural)]
pub enum EventResult {
    /// Sleep until the next native event.
    Wait,
    /// Repaint the window synchronously, inside the event handler; only for
    /// events that must show their effect before the handler returns.
    RepaintNow(WindowId),
    /// Repaint the window when the event loop next handles its redraws, so
    /// several input events can share one frame.
    RepaintNext(WindowId),
    /// Repaint the window no earlier than the given host-clock instant, in
    /// milliseconds.
    RepaintAt(WindowId, u64),
    /// Persist state now.
    Save,
    /// Leave the event loop.
    Exit,
}

/// What a concrete backend implements to drive the framework from a native
/// event loop. Lifecycle: after `resumed`, windows exist and
/// `run_ui_and_paint` is legal; `suspended` may destroy the graphics
/// surface; `save_and_destroy` ends the run and is called exactly once.
pub trait WinitApp {
    /// The shared UI context, once it exists; some platforms create it
    /// lazily on the first resume.
    fn egui_ctx(&self) -> Option<&UiContext>;

    /// The native window showing a viewport, if any.
    fn window_id_from_viewport_id(&self, id: ViewportId) -> Option<WindowId>;

    /// The viewport shown in a native window, if any.
    fn viewport_id_from_window_id(&self, id: WindowId) -> Option<ViewportId>;

    /// Snapshot state without tearing anything down.
    fn save(&mut self);

    /// Snapshot state, then release all graphics and window resources.
    fn save_and_destroy(&mut self);

    /// Run one UI pass for the window, hand the merged output to the
    /// graphics backend, and present; returns the next scheduling action.
    fn run_ui_and_paint(&mut self, window_id: WindowId) -> Result<EventResult, Error>;

    /// The platform suspended the application.
    fn suspended(&mut self) -> Result<EventResult, Error>;

    /// The platform resumed the application; windows may be (re)created.
    fn resumed(&mut self) -> Result<EventResult, Error>;

    /// A device event arrived.
    fn device_event(&mut self, event: DeviceEvent) -> Result<EventResult, Error>;

    /// A window event arrived.
    fn window_event(&mut self, window_id: WindowId, event: WindowEvent) -> Result<
        EventResult,
        Error,
    >;

    /// Poll the custom event queue, without blocking.
    fn try_recv_user_event(&mut self) -> Option<UserEvent>;
}

/// Create the UI context at startup: desktop platforms get native child
/// viewports, the engine may run two passes per frame, and the widget
/// memory is restored from storage when a blob is present.
pub fn create_egui_context(storage: Option<&Storage>, is_desktop: bool) -> (r: UiContext)
    ensures
        r.embed_viewports == !is_desktop,
        r.max_passes == 2,
        !r.accesskit_enabled,
        r.accesskit_actions@ == Seq::<u64>::empty(),
        r.memory@ == match storage {
            Some(s) => match crate::storage::spec_lookup(s@, "egui"@) {
                Some(b) => b,
                None => Seq::<u8>::empty(),
            },
            None => Seq::<u8>::empty(),
        },
{
    let memory = match load_egui_memory(storage) {
        Some(m) => m,
        None => Vec::new(),
    };
    UiContext {
        memory,
        embed_viewports: !is_desktop,
        max_passes: 2,
        accesskit_enabled: false,
        accesskit_actions: Vec::new(),
    }
}

/// Answer one accessibility window event: activating the bridge repaints
/// immediately (the adapter is waiting on the first tree), an action is
/// queued and repaints with the next regular frame, and deactivation has no
/// visible effect.
pub fn on_accesskit_window_event(
    egui_ctx: &mut UiContext,
    window_id: WindowId,
    event: &AccessKitWindowEvent,
) -> (r: EventResult)
    ensures
        match *event {
            AccessKitWindowEvent::InitialTreeRequested => r == EventResult::RepaintNow(window_id)
                && final(egui_ctx).accesskit_enabled
                && final(egui_ctx).accesskit_actions@ == old(egui_ctx).accesskit_actions@,
            AccessKitWindowEvent::ActionRequested(action) => r == EventResult::RepaintNext(window_id)
                && final(egui_ctx).accesskit_enabled == old(egui_ctx).accesskit_enabled
                && final(egui_ctx).accesskit_actions@ == old(egui_ctx).accesskit_actions@.push(action),
            AccessKitWindowEvent::AccessibilityDeactivated => r == EventResult::Wait
                && !final(egui_ctx).accesskit_enabled
                && final(egui_ctx).accesskit_actions@ == old(egui_ctx).accesskit_actions@,
        },
        final(egui_ctx).memory == old(egui_ctx).memory,
        final(egui_ctx).embed_viewports == old(egui_ctx).embed_viewports,
        final(egui_ctx).max_passes == old(egui_ctx).max_passes,
{
    match event {
        AccessKitWindowEvent::InitialTreeRequested => {
            egui_ctx.accesskit_enabled = true;
            EventResult::RepaintNow(window_id)
        },
        AccessKitWindowEvent::ActionRequested(action) => {
            egui_ctx.accesskit_actions.push(*action);
            EventResult::RepaintNext(window_id)
        },
        AccessKitWindowEvent::AccessibilityDeactivated => {
            egui_ctx.accesskit_enabled = false;
            EventResult::Wait
        },
    }
}

} // verus!
