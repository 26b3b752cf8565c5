use eframe::epi::{NativeOptions, Renderer, ViewportBuilder};
use eframe::epi_integration::{
    largest_monitor_point_size, monitor_bounds, primary_or_first_monitor, viewport_builder,
    MonitorInfo, PhysicalSize,
};
use eframe::geom::{Pos2, Rect, Vec2};
use eframe::settings::WindowSettings;

fn monitor(x: i64, y: i64, w: u64, h: u64, scale_pct: u64, primary: bool) -> MonitorInfo {
    MonitorInfo {
        position: Pos2 { x, y },
        mode_size: Some(PhysicalSize {
            width: w,
            height: h,
        }),
        scale_pct,
        is_primary: primary,
    }
}

fn modeless_monitor() -> MonitorInfo {
    MonitorInfo {
        position: Pos2 { x: 0, y: 0 },
        mode_size: None,
        scale_pct: 100,
        is_primary: false,
    }
}

fn options() -> NativeOptions {
    NativeOptions {
        viewport: ViewportBuilder::new(),
        renderer: Renderer::Wgpu,
        centered: false,
        persist_window: true,
    }
}

#[test]
fn largest_monitor_size_is_componentwise_max() {
    let monitors = vec![
        monitor(0, 0, 1920, 1080, 100, true),
        monitor(1920, 0, 1280, 2048, 100, false),
    ];
    let r = largest_monitor_point_size(100, &monitors);
    assert_eq!(r, Vec2 { x: 1920, y: 2048 });
}

#[test]
fn largest_monitor_size_applies_scale_and_zoom() {
    // 3840 physical at 200% scale is 1920 logical; zooming to 200% of that
    // leaves 960 logical units.
    let monitors = vec![monitor(0, 0, 3840, 2160, 200, true)];
    assert_eq!(
        largest_monitor_point_size(100, &monitors),
        Vec2 { x: 1920, y: 1080 }
    );
    assert_eq!(
        largest_monitor_point_size(200, &monitors),
        Vec2 { x: 960, y: 540 }
    );
}

#[test]
fn largest_monitor_size_sentinel_without_usable_modes() {
    // Largest-monitor sentinel: zero usable modes never yield a zero
    // size; both components are at least ten thousand.
    let r = largest_monitor_point_size(100, &Vec::new());
    assert_eq!(r, Vec2 { x: 16000, y: 16000 });
    assert!(r.x >= 10_000 && r.y >= 10_000);

    let r2 = largest_monitor_point_size(100, &vec![modeless_monitor(), modeless_monitor()]);
    assert_eq!(r2, Vec2 { x: 16000, y: 16000 });
}

#[test]
fn monitor_bounds_is_union_box() {
    let monitors = vec![
        monitor(0, 0, 1920, 1080, 100, true),
        monitor(1920, -100, 1000, 1000, 100, false),
    ];
    let b = monitor_bounds(100, &monitors).unwrap();
    assert_eq!(
        b,
        Rect {
            min: Pos2 { x: 0, y: -100 },
            max: Pos2 { x: 2920, y: 1080 },
        }
    );
    assert!(monitor_bounds(100, &Vec::new()).is_none());
}

#[test]
fn primary_monitor_wins_else_first() {
    let ms = vec![
        monitor(0, 0, 100, 100, 100, false),
        monitor(5, 5, 200, 200, 100, true),
    ];
    assert_eq!(primary_or_first_monitor(&ms), Some(ms[1]));
    let ms2 = vec![
        monitor(0, 0, 100, 100, 100, false),
        monitor(5, 5, 200, 200, 100, false),
    ];
    assert_eq!(primary_or_first_monitor(&ms2), Some(ms2[0]));
    assert_eq!(primary_or_first_monitor(&Vec::new()), None);
}

#[test]
fn restored_oversized_window_is_clamped_onto_the_monitor() {
    // Scenario: a window restored at (-50, -50) with size (4000, 4000) on
    // a single monitor of logical size (1920, 1080) is clamped so the size
    // fits the monitor and the origin stays within reachable bounds.
    let monitors = vec![monitor(0, 0, 1920, 1080, 100, true)];
    let restored = WindowSettings {
        pos: Pos2 { x: -50, y: -50 },
        size: Vec2 { x: 4000, y: 4000 },
        maximized: false,
    };
    let vb = viewport_builder(100, &monitors, &options(), Some(restored));
    let size = vb.inner_size.unwrap();
    assert!(size.x <= 1920 && size.y <= 1080);
    assert_eq!(size, Vec2 { x: 1920, y: 1080 });
    let pos = vb.position.unwrap();
    assert!(pos.x >= 0 && pos.y >= 0);
    assert!(pos.x + size.x <= 1920 && pos.y + size.y <= 1080);
    assert_eq!(pos, Pos2 { x: 0, y: 0 });
    assert_eq!(vb.maximized, Some(false));
}

#[test]
fn restored_in_bounds_window_is_kept_exactly() {
    // Geometry clamp monotonicity: a size within the monitor bound is not
    // changed at all.
    let monitors = vec![monitor(0, 0, 1920, 1080, 100, true)];
    let restored = WindowSettings {
        pos: Pos2 { x: 100, y: 100 },
        size: Vec2 { x: 800, y: 600 },
        maximized: true,
    };
    let vb = viewport_builder(100, &monitors, &options(), Some(restored));
    assert_eq!(vb.inner_size, Some(Vec2 { x: 800, y: 600 }));
    assert_eq!(vb.position, Some(Pos2 { x: 100, y: 100 }));
    assert_eq!(vb.maximized, Some(true));
}

#[test]
fn restored_size_kept_when_clamping_disabled() {
    let monitors = vec![monitor(0, 0, 1920, 1080, 100, true)];
    let mut opts = options();
    opts.viewport.clamp_size_to_monitor_size = Some(false);
    let restored = WindowSettings {
        pos: Pos2 { x: 0, y: 0 },
        size: Vec2 { x: 4000, y: 4000 },
        maximized: false,
    };
    let vb = viewport_builder(100, &monitors, &opts, Some(restored));
    assert_eq!(vb.inner_size, Some(Vec2 { x: 4000, y: 4000 }));
}

#[test]
fn requested_size_is_clamped_without_restored_settings() {
    let monitors = vec![monitor(0, 0, 1920, 1080, 100, true)];
    let mut opts = options();
    opts.viewport.inner_size = Some(Vec2 { x: 2500, y: 900 });
    opts.viewport.position = Some(Pos2 { x: 30, y: 40 });
    let vb = viewport_builder(100, &monitors, &opts, None);
    assert_eq!(vb.inner_size, Some(Vec2 { x: 1920, y: 900 }));
    assert_eq!(vb.position, Some(Pos2 { x: 30, y: 40 }));
    assert_eq!(vb.maximized, None);
}

#[test]
fn centering_wins_over_requested_position() {
    let monitors = vec![monitor(0, 0, 1920, 1080, 100, true)];
    let mut opts = options();
    opts.centered = true;
    opts.viewport.position = Some(Pos2 { x: 5, y: 5 });
    opts.viewport.inner_size = Some(Vec2 { x: 800, y: 600 });
    let vb = viewport_builder(100, &monitors, &opts, None);
    assert_eq!(vb.position, Some(Pos2 { x: 560, y: 240 }));
}

#[test]
fn centering_assumes_default_size_when_none_known() {
    let monitors = vec![monitor(0, 0, 1920, 1080, 100, true)];
    let mut opts = options();
    opts.centered = true;
    let vb = viewport_builder(100, &monitors, &opts, None);
    // An 800 by 600 window is assumed.
    assert_eq!(vb.position, Some(Pos2 { x: 560, y: 240 }));
    assert_eq!(vb.inner_size, None);
}

#[test]
fn centering_without_usable_monitor_keeps_position() {
    let mut opts = options();
    opts.centered = true;
    opts.viewport.position = Some(Pos2 { x: 5, y: 5 });
    let vb = viewport_builder(100, &vec![modeless_monitor()], &opts, None);
    assert_eq!(vb.position, Some(Pos2 { x: 5, y: 5 }));
}

#[test]
fn viewport_builder_carries_title_and_icon_through() {
    let monitors = vec![monitor(0, 0, 1920, 1080, 100, true)];
    let mut opts = options();
    opts.viewport.title = Some("My App".to_string());
    opts.viewport.icon = Some(77);
    let vb = viewport_builder(100, &monitors, &opts, None);
    assert_eq!(vb.title, Some("My App".to_string()));
    assert_eq!(vb.icon, Some(77));
}
