use eframe::context::{RawInput, UiContext};
use eframe::epi::{App, Frame, NativeOptions, Renderer, ViewportBuilder};
use eframe::epi_integration::{apply_window_settings, window_settings_from_window};
use eframe::epi_integration::{EpiIntegration, WindowState};
use eframe::geom::{Pos2, Vec2};
use eframe::output::{CommandKind, FullOutput, ViewportCommand, ViewportId};
use eframe::settings::WindowSettings;
use eframe::storage::Storage;
use eframe::winit_integration::{EventResponse, PointerButton, WindowEvent};

struct CountingApp {
    saves: u32,
    persist_memory: bool,
    interval_millis: u64,
}

impl App for CountingApp {
    fn update(&mut self, _ctx: &mut UiContext, _frame: &mut Frame) {}

    fn save(&mut self, storage: &mut Storage) {
        self.saves += 1;
        storage.set(&"app".to_string(), vec![42]);
    }

    fn auto_save_interval_millis(&self) -> u64 {
        self.interval_millis
    }

    fn persist_egui_memory(&self) -> bool {
        self.persist_memory
    }
}

fn test_context() -> UiContext {
    UiContext {
        memory: vec![1, 2, 3],
        embed_viewports: false,
        max_passes: 2,
        accesskit_enabled: false,
        accesskit_actions: Vec::new(),
    }
}

fn test_options() -> NativeOptions {
    NativeOptions {
        viewport: ViewportBuilder::new(),
        renderer: Renderer::Glow,
        centered: false,
        persist_window: true,
    }
}

fn new_integration(storage: Option<Storage>) -> EpiIntegration {
    EpiIntegration::new(test_context(), "demo app", &test_options(), storage, 1_000)
}

fn cancel_close_output() -> FullOutput {
    let mut out = FullOutput::new();
    out.commands.push(ViewportCommand {
        viewport: ViewportId::root(),
        kind: CommandKind::CancelClose,
    });
    out
}

fn single_mesh_output(mesh: u64) -> FullOutput {
    let mut out = FullOutput::new();
    out.meshes.push(mesh);
    out
}

#[test]
fn new_integration_initial_state() {
    let integ = new_integration(None);
    assert!(!integ.should_close());
    assert_eq!(integ.beginning_millis, 1_000);
    assert_eq!(integ.last_auto_save_millis, 1_000);
    assert!(integ.is_first_frame);
    assert_eq!(integ.app_title, "demo app");
    assert_eq!(integ.frame.info.cpu_usage_micros, None);
}

#[test]
fn title_from_options_wins_over_app_name() {
    let mut options = test_options();
    options.viewport.title = Some("Configured".to_string());
    let integ = EpiIntegration::new(test_context(), "demo", &options, None, 0);
    assert_eq!(integ.app_title, "Configured");
}

#[test]
fn close_veto_keeps_window_open_then_unvetoed_close_sticks() {
    // Idempotent close veto: a close request answered by a cancel-close
    // command leaves the flag unset; the next unvetoed request sets it
    // exactly once, and nothing clears it again.
    let mut integ = new_integration(None);

    let _ = integ.update(true, true, cancel_close_output());
    assert!(!integ.should_close());

    let _ = integ.update(true, true, FullOutput::new());
    assert!(integ.should_close());

    let _ = integ.update(true, true, cancel_close_output());
    assert!(integ.should_close());
}

#[test]
fn close_request_on_child_viewport_is_ignored() {
    let mut integ = new_integration(None);
    let _ = integ.update(false, true, FullOutput::new());
    assert!(!integ.should_close());
}

#[test]
fn cancel_close_for_other_viewport_does_not_veto() {
    let mut integ = new_integration(None);
    let mut out = FullOutput::new();
    out.commands.push(ViewportCommand {
        viewport: ViewportId(7),
        kind: CommandKind::CancelClose,
    });
    let _ = integ.update(true, true, out);
    assert!(integ.should_close());
}

#[test]
fn update_merges_pending_output_and_resets_buffer() {
    // Merge accumulation: two single-mesh passes yield a combined buffer
    // with two meshes; after the output is taken, the pending buffer is
    // empty for the next call.
    let mut integ = new_integration(None);
    integ.pending_full_output.append(single_mesh_output(1));
    let merged = integ.update(true, false, single_mesh_output(2));
    assert_eq!(merged.meshes, vec![1, 2]);

    let next = integ.update(true, false, FullOutput::new());
    assert!(next.meshes.is_empty());
}

#[test]
fn output_append_accumulates_all_parts() {
    let mut a = FullOutput::new();
    a.meshes.push(1);
    a.textures_delta.push(10);
    let mut b = FullOutput::new();
    b.meshes.push(2);
    b.commands.push(ViewportCommand {
        viewport: ViewportId(3),
        kind: CommandKind::Close,
    });
    a.append(b);
    assert_eq!(a.meshes, vec![1, 2]);
    assert_eq!(a.textures_delta, vec![10]);
    assert_eq!(a.commands.len(), 1);
    let taken = a.take();
    assert_eq!(taken.meshes, vec![1, 2]);
    assert!(a.meshes.is_empty() && a.textures_delta.is_empty() && a.commands.is_empty());
}

#[test]
fn on_window_event_tracks_primary_press_and_passes_response_through() {
    let mut integ = new_integration(None);
    assert!(!integ.can_drag_window);
    let response = EventResponse {
        consumed: true,
        repaint: false,
    };
    let r = integ.on_window_event(
        &WindowEvent::PointerButtonPressed {
            button: PointerButton::Secondary,
        },
        response,
    );
    assert_eq!(r, response);
    assert!(!integ.can_drag_window);
    let _ = integ.on_window_event(
        &WindowEvent::PointerButtonPressed {
            button: PointerButton::Primary,
        },
        response,
    );
    assert!(integ.can_drag_window);
    let _ = integ.on_window_event(&WindowEvent::CloseRequested, response);
    assert!(integ.can_drag_window);
}

#[test]
fn prepare_raw_input_stamps_elapsed_time() {
    let integ = new_integration(None);
    let mut input = RawInput {
        time_millis: None,
        close_requested: false,
    };
    integ.prepare_raw_input(&mut input, 3_500);
    assert_eq!(input.time_millis, Some(2_500));
    assert!(!input.close_requested);
}

#[test]
fn pre_update_hands_title_out_once() {
    let mut integ = new_integration(None);
    assert_eq!(integ.pre_update(), Some("demo app".to_string()));
    assert_eq!(integ.pre_update(), None);
}

#[test]
fn post_rendering_shows_window_on_first_frame_only() {
    let mut integ = new_integration(None);
    let mut window = WindowState {
        title: "t".to_string(),
        outer_pos: Pos2 { x: 0, y: 0 },
        inner_size: Vec2 { x: 100, y: 100 },
        maximized: false,
        visible: false,
    };
    integ.post_rendering(&mut window);
    assert!(window.visible);
    window.visible = false;
    integ.post_rendering(&mut window);
    assert!(!window.visible);
}

#[test]
fn report_frame_time_is_exposed_to_the_app() {
    let mut integ = new_integration(None);
    integ.report_frame_time(1_250);
    assert_eq!(integ.frame.info.cpu_usage_micros, Some(1_250));
}

#[test]
fn autosave_debounce_two_polls_one_save() {
    // Autosave debounce: a save happens exactly when more than the
    // interval has passed; two polls within one interval trigger exactly
    // one save.
    let mut app = CountingApp {
        saves: 0,
        persist_memory: false,
        interval_millis: 1_000,
    };
    let mut integ = new_integration(Some(Storage::new()));

    integ.maybe_autosave_with_interval(&mut app, None, 1_500, 1_000);
    assert_eq!(app.saves, 0);
    assert_eq!(integ.last_auto_save_millis, 1_000);

    integ.maybe_autosave_with_interval(&mut app, None, 2_100, 1_000);
    assert_eq!(app.saves, 1);
    assert_eq!(integ.last_auto_save_millis, 2_100);

    integ.maybe_autosave_with_interval(&mut app, None, 3_000, 1_000);
    assert_eq!(app.saves, 1);
    assert_eq!(integ.last_auto_save_millis, 2_100);
}

#[test]
fn maybe_autosave_uses_app_interval() {
    let mut app = CountingApp {
        saves: 0,
        persist_memory: false,
        interval_millis: 500,
    };
    let mut integ = new_integration(Some(Storage::new()));
    integ.maybe_autosave(&mut app, None, 1_400);
    assert_eq!(app.saves, 0);
    integ.maybe_autosave(&mut app, None, 1_600);
    assert_eq!(app.saves, 1);
}

#[test]
fn save_writes_geometry_memory_and_app_state_then_flushes() {
    let mut app = CountingApp {
        saves: 0,
        persist_memory: true,
        interval_millis: 1_000,
    };
    let mut integ = new_integration(Some(Storage::new()));
    let ws = WindowSettings {
        pos: Pos2 { x: 10, y: 20 },
        size: Vec2 { x: 800, y: 600 },
        maximized: false,
    };
    integ.save(&mut app, Some(&ws));
    assert_eq!(app.saves, 1);
    let st = integ.frame.storage.as_ref().unwrap();
    assert!(st.get(&"window".to_string()).is_some());
    assert_eq!(st.get(&"egui".to_string()), Some(&vec![1, 2, 3]));
    assert_eq!(st.get(&"app".to_string()), Some(&vec![42]));
    // The flush made everything durable.
    assert_eq!(st.durable_entries().len(), 3);
    // And the geometry round-trips.
    assert_eq!(
        eframe::epi_integration::load_window_settings(Some(st)),
        Some(ws)
    );
}

#[test]
fn save_without_storage_does_nothing() {
    let mut app = CountingApp {
        saves: 0,
        persist_memory: true,
        interval_millis: 1_000,
    };
    let mut integ = new_integration(None);
    integ.save(&mut app, None);
    assert_eq!(app.saves, 0);
    assert!(integ.frame.storage.is_none());
}

#[test]
fn save_without_window_persistence_skips_geometry_but_not_the_rest() {
    let mut app = CountingApp {
        saves: 0,
        persist_memory: true,
        interval_millis: 1_000,
    };
    let mut options = test_options();
    options.persist_window = false;
    let mut integ = EpiIntegration::new(test_context(), "demo", &options, Some(Storage::new()), 0);
    let ws = WindowSettings {
        pos: Pos2 { x: 1, y: 2 },
        size: Vec2 { x: 3, y: 4 },
        maximized: false,
    };
    integ.save(&mut app, Some(&ws));
    let st = integ.frame.storage.as_ref().unwrap();
    assert!(st.get(&"window".to_string()).is_none());
    assert!(st.get(&"egui".to_string()).is_some());
    assert_eq!(app.saves, 1);
}

#[test]
fn apply_window_settings_sets_geometry_idempotently() {
    let mut window = WindowState {
        title: "t".to_string(),
        outer_pos: Pos2 { x: 0, y: 0 },
        inner_size: Vec2 { x: 1, y: 1 },
        maximized: false,
        visible: true,
    };
    let ws = WindowSettings {
        pos: Pos2 { x: 5, y: 6 },
        size: Vec2 { x: 7, y: 8 },
        maximized: true,
    };
    apply_window_settings(&mut window, Some(ws));
    assert_eq!(window.outer_pos, Pos2 { x: 5, y: 6 });
    assert_eq!(window.inner_size, Vec2 { x: 7, y: 8 });
    assert!(window.maximized);
    apply_window_settings(&mut window, Some(ws));
    assert_eq!(window.outer_pos, Pos2 { x: 5, y: 6 });
    apply_window_settings(&mut window, None);
    assert_eq!(window.inner_size, Vec2 { x: 7, y: 8 });
    assert_eq!(window_settings_from_window(&window), ws);
}
