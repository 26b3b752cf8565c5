//! The frame-integration engine: it owns the UI context and the per-session
//! state, decides close and cancel-close semantics, accumulates pass output,
//! performs debounced autosave, and computes initial window placement from
//! restored geometry and the connected monitors.
//!
//! Monitors are handed in as plain values: logical desktop position, the
//! physical size of the current video mode (if the monitor reports one) and
//! the scale factor in percent. Times are milliseconds from a monotonic
//! clock the host reads.

use vstd::prelude::*;

use crate::context::{RawInput, UiContext};
use crate::epi::{App, Frame, IntegrationInfo, NativeOptions, ViewportBuilder};
use crate::geom::{div2, spec_clamp, spec_div2, Pos2, Rect, Vec2};
use crate::output::{
    empty_output, merge_output, spec_has_cancel_close, FullOutput, ViewportId,
};
use crate::settings::{
    decode_settings, encode_settings, spec_decode_settings, spec_encode_settings, WindowSettings,
};
use crate::storage::{clone_bytes, spec_lookup, Storage};
use crate::winit_integration::{EventResponse, PointerButton, WindowEvent};

verus! {

/// The size a monitor's current video mode reports, in physical pixels.
#[derive(Clone, Copy, Debug, PartialEq, Eq, Structural)]
pub struct PhysicalSize {
    /// Width in physical pixels.
    pub width: u64,
    /// Height in physical pixels.
    pub height: u64,
}

/// One connected monitor, as the windowing layer reports it.
#[derive(Clone, Copy, Debug, PartialEq, Eq, Structural)]
pub struct MonitorInfo {
    /// Logical position of the monitor in the desktop space.
    pub position: Pos2,
    /// The current video mode's size, if the monitor reports one.
    pub mode_size: Option<PhysicalSize>,
    /// Scale factor in percent; 100 means one logical unit per pixel.
    pub scale_pct: u64,
    /// Whether the windowing layer calls this the primary monitor.
    pub is_primary: bool,
}

/// The zoom factor in percent is kept within an ordinary range.
pub open spec fn zoom_ok(zoom_pct: int) -> bool {
    10 <= zoom_pct <= 1000
}

/// A monitor's numbers are within the ranges the arithmetic needs.
pub open spec fn monitor_ok(m: MonitorInfo) -> bool {
    &&& 10 <= m.scale_pct <= 1000
    &&& (m.mode_size matches Some(s) ==> s.width <= 10_000_000 && s.height <= 10_000_000)
    &&& -1_000_000_000 <= m.position.x <= 1_000_000_000
    &&& -1_000_000_000 <= m.position.y <= 1_000_000_000
}

/// Every monitor of the list is within range.
pub open spec fn monitors_ok(ms: Seq<MonitorInfo>) -> bool {
    forall|i: int| 0 <= i < ms.len() ==> monitor_ok(#[trigger] ms[i])
}

/// Physical pixels to logical units: divide by the zoom factor times the
/// monitor's scale factor, both in percent.
pub open spec fn spec_logical(p: int, zoom_pct: int, scale_pct: int) -> int {
    p * 10000 / (zoom_pct * scale_pct)
}

/// Physical pixels to logical units.
pub fn logical_len(p: u64, zoom_pct: u64, scale_pct: u64) -> (r: i64)
    requires
        p <= 10_000_000,
        zoom_ok(zoom_pct as int),
        10 <= scale_pct <= 1000,
    ensures
        r == spec_logical(p as int, zoom_pct as int, scale_pct as int),
        0 <= r <= 1_000_000_000,
{
    proof {
        assert(100 <= zoom_pct * scale_pct) by (nonlinear_arith)
            requires
                10 <= zoom_pct,
                10 <= scale_pct,
        ;
        assert(zoom_pct * scale_pct <= 1_000_000) by (nonlinear_arith)
            requires
                0 <= zoom_pct <= 1000,
                0 <= scale_pct <= 1000,
        ;
    }
    let d: u64 = zoom_pct * scale_pct;
    let q: u64 = (p * 10000) / d;
    proof {
        lemma_logical_bounds(p as int, zoom_pct as int, scale_pct as int);
    }
    q as i64
}

/// The componentwise largest logical monitor size, zero where no monitor
/// reports a mode.
pub open spec fn spec_largest_monitor(ms: Seq<MonitorInfo>, zoom_pct: int) -> (int, int)
    decreases ms.len(),
{
    if ms.len() == 0 {
        (0, 0)
    } else {
        let rest = spec_largest_monitor(ms.drop_last(), zoom_pct);
        match ms.last().mode_size {
            Some(ps) => {
                let lw = spec_logical(ps.width as int, zoom_pct, ms.last().scale_pct as int);
                let lh = spec_logical(ps.height as int, zoom_pct, ms.last().scale_pct as int);
                (
                    if lw > rest.0 {
                        lw
                    } else {
                        rest.0
                    },
                    if lh > rest.1 {
                        lh
                    } else {
                        rest.1
                    },
                )
            },
            None => rest,
        }
    }
}

/// The logical conversion of an in-range physical length is in range.
pub proof fn lemma_logical_bounds(p: int, zoom_pct: int, scale_pct: int)
    requires
        0 <= p <= 10_000_000,
        zoom_ok(zoom_pct),
        10 <= scale_pct <= 1000,
    ensures
        0 <= spec_logical(p, zoom_pct, scale_pct) <= 1_000_000_000,
{
    assert(100 <= zoom_pct * scale_pct) by (nonlinear_arith)
        requires
            10 <= zoom_pct,
            10 <= scale_pct,
    ;
    assert(zoom_pct * scale_pct <= 1_000_000) by (nonlinear_arith)
        requires
            0 <= zoom_pct <= 1000,
            0 <= scale_pct <= 1000,
    ;
    let d = zoom_pct * scale_pct;
    vstd::arithmetic::div_mod::lemma_div_pos_is_pos(p * 10000, d);
    vstd::arithmetic::div_mod::lemma_div_is_ordered_by_denominator(p * 10000, 100, d);
    vstd::arithmetic::div_mod::lemma_div_is_ordered(p * 10000, 100_000_000_000, 100);
}

/// The largest-monitor size the clamping uses: the componentwise maximum,
/// or a very large sentinel when every monitor is unusable.
pub open spec fn spec_largest_size(ms: Seq<MonitorInfo>, zoom_pct: int) -> (int, int) {
    let m = spec_largest_monitor(ms, zoom_pct);
    if m.0 == 0 && m.1 == 0 {
        (16000, 16000)
    } else {
        m
    }
}

/// The componentwise maximum of all connected monitors' logical sizes; a
/// very large sentinel when no monitor reports a usable mode, so that a
/// failed enumeration never clamps everything to nothing.
pub fn largest_monitor_point_size(egui_zoom_pct: u64, monitors: &Vec<MonitorInfo>) -> (r: Vec2)
    requires
        zoom_ok(egui_zoom_pct as int),
        monitors_ok(monitors@),
    ensures
        r.x == spec_largest_size(monitors@, egui_zoom_pct as int).0,
        r.y == spec_largest_size(monitors@, egui_zoom_pct as int).1,
        0 <= r.x <= 1_000_000_000,
        0 <= r.y <= 1_000_000_000,
{
    let n = monitors.len();
    let mut max_x: i64 = 0;
    let mut max_y: i64 = 0;
    let mut i: usize = 0;
    proof {
        assert(monitors@.subrange(0, 0) =~= Seq::<MonitorInfo>::empty());
    }
    while i < n
        invariant
            i <= n == monitors@.len(),
            zoom_ok(egui_zoom_pct as int),
            monitors_ok(monitors@),
            (max_x as int, max_y as int) == spec_largest_monitor(
                monitors@.subrange(0, i as int),
                egui_zoom_pct as int,
            ),
            0 <= max_x <= 1_000_000_000,
            0 <= max_y <= 1_000_000_000,
        decreases n - i,
    {
        let m = monitors[i];
        proof {
            assert(monitor_ok(monitors@[i as int]));
            assert(monitors@.subrange(0, i + 1).drop_last() =~= monitors@.subrange(0, i as int));
            assert(monitors@.subrange(0, i + 1).last() == monitors@[i as int]);
        }
        match m.mode_size {
            Some(ps) => {
                let lw = logical_len(ps.width, egui_zoom_pct, m.scale_pct);
                let lh = logical_len(ps.height, egui_zoom_pct, m.scale_pct);
                if lw > max_x {
                    max_x = lw;
                }
                if lh > max_y {
                    max_y = lh;
                }
            },
            None => {},
        }
        i += 1;
    }
    proof {
        assert(monitors@.subrange(0, n as int) =~= monitors@);
    }
    if max_x == 0 && max_y == 0 {
        Vec2 { x: 16000, y: 16000 }
    } else {
        Vec2 { x: max_x, y: max_y }
    }
}

/// The union bounding box of the monitors that report a mode, in logical
/// units; nothing when no monitor does.
pub open spec fn spec_monitor_bounds(ms: Seq<MonitorInfo>, zoom_pct: int) -> Option<
    (int, int, int, int),
>
    decreases ms.len(),
{
    if ms.len() == 0 {
        None
    } else {
        let rest = spec_monitor_bounds(ms.drop_last(), zoom_pct);
        match ms.last().mode_size {
            Some(ps) => {
                let m = ms.last();
                let lw = spec_logical(ps.width as int, zoom_pct, m.scale_pct as int);
                let lh = spec_logical(ps.height as int, zoom_pct, m.scale_pct as int);
                let b = (m.position.x as int, m.position.y as int, m.position.x + lw, m.position.y
                    + lh);
                match rest {
                    None => Some(b),
                    Some(r) => Some(
                        (
                            if r.0 <= b.0 {
                                r.0
                            } else {
                                b.0
                            },
                            if r.1 <= b.1 {
                                r.1
                            } else {
                                b.1
                            },
                            if r.2 >= b.2 {
                                r.2
                            } else {
                                b.2
                            },
                            if r.3 >= b.3 {
                                r.3
                            } else {
                                b.3
                            },
                        ),
                    ),
                }
            },
            None => rest,
        }
    }
}

/// The union bounding box of the usable monitors, as a rectangle.
pub fn monitor_bounds(egui_zoom_pct: u64, monitors: &Vec<MonitorInfo>) -> (r: Option<Rect>)
    requires
        zoom_ok(egui_zoom_pct as int),
        monitors_ok(monitors@),
    ensures
        match r {
            Some(rect) => spec_monitor_bounds(monitors@, egui_zoom_pct as int) == Some(
                ((rect.min.x as int, rect.min.y as int, rect.max.x as int, rect.max.y as int)),
            ) && rect.ok(),
            None => spec_monitor_bounds(monitors@, egui_zoom_pct as int) is None,
        },
{
    let n = monitors.len();
    let mut acc: Option<Rect> = None;
    let mut i: usize = 0;
    proof {
        assert(monitors@.subrange(0, 0) =~= Seq::<MonitorInfo>::empty());
    }
    while i < n
        invariant
            i <= n == monitors@.len(),
            zoom_ok(egui_zoom_pct as int),
            monitors_ok(monitors@),
            match acc {
                Some(rect) => spec_monitor_bounds(monitors@.subrange(0, i as int), egui_zoom_pct as int)
                    == Some(
                    ((rect.min.x as int, rect.min.y as int, rect.max.x as int, rect.max.y as int)),
                ) && -1_000_000_000 <= rect.min.x <= 1_000_000_000 && -1_000_000_000 <= rect.min.y
                    <= 1_000_000_000 && -1_000_000_000 <= rect.max.x <= 2_000_000_000
                    && -1_000_000_000 <= rect.max.y <= 2_000_000_000,
                None => spec_monitor_bounds(monitors@.subrange(0, i as int), egui_zoom_pct as int)
                    is None,
            },
        decreases n - i,
    {
        let m = monitors[i];
        proof {
            assert(monitor_ok(monitors@[i as int]));
            assert(monitors@.subrange(0, i + 1).drop_last() =~= monitors@.subrange(0, i as int));
            assert(monitors@.subrange(0, i + 1).last() == monitors@[i as int]);
        }
        match m.mode_size {
            Some(ps) => {
                let lw = logical_len(ps.width, egui_zoom_pct, m.scale_pct);
                let lh = logical_len(ps.height, egui_zoom_pct, m.scale_pct);
                let b = Rect {
                    min: m.position,
                    max: Pos2 { x: m.position.x + lw, y: m.position.y + lh },
                };
                acc = match acc {
                    None => Some(b),
                    Some(r0) => Some(
                        Rect {
                            min: Pos2 {
                                x: if r0.min.x <= b.min.x {
                                    r0.min.x
                                } else {
                                    b.min.x
                                },
                                y: if r0.min.y <= b.min.y {
                                    r0.min.y
                                } else {
                                    b.min.y
                                },
                            },
                            max: Pos2 {
                                x: if r0.max.x >= b.max.x {
                                    r0.max.x
                                } else {
                                    b.max.x
                                },
                                y: if r0.max.y >= b.max.y {
                                    r0.max.y
                                } else {
                                    b.max.y
                                },
                            },
                        },
                    ),
                };
            },
            None => {},
        }
        i += 1;
    }
    proof {
        assert(monitors@.subrange(0, n as int) =~= monitors@);
    }
    acc
}

/// The primary monitor, or the first one when none is marked primary.
pub open spec fn spec_first_primary(ms: Seq<MonitorInfo>) -> Option<MonitorInfo>
    decreases ms.len(),
{
    if ms.len() == 0 {
        None
    } else if ms[0].is_primary {
        Some(ms[0])
    } else {
        spec_first_primary(ms.drop_first())
    }
}

/// The monitor centering should use: the primary one, falling back to the
/// first connected one.
pub open spec fn spec_primary_or_first(ms: Seq<MonitorInfo>) -> Option<MonitorInfo> {
    match spec_first_primary(ms) {
        Some(m) => Some(m),
        None => if ms.len() > 0 {
            Some(ms[0])
        } else {
            None
        },
    }
}

/// The monitor centering uses.
pub fn primary_or_first_monitor(monitors: &Vec<MonitorInfo>) -> (r: Option<MonitorInfo>)
    ensures
        r == spec_primary_or_first(monitors@),
{
    let n = monitors.len();
    let mut i: usize = 0;
    proof {
        assert(monitors@.skip(0) =~= monitors@);
    }
    while i < n
        invariant
            i <= n == monitors@.len(),
            spec_first_primary(monitors@) == spec_first_primary(monitors@.skip(i as int)),
            forall|j: int| 0 <= j < i ==> !(#[trigger] monitors@[j]).is_primary,
        decreases n - i,
    {
        proof {
            assert(monitors@.skip(i as int)[0] == monitors@[i as int]);
            assert(monitors@.skip(i as int).drop_first() =~= monitors@.skip(i as int + 1));
        }
        if monitors[i].is_primary {
            return Some(monitors[i]);
        }
        i += 1;
    }
    proof {
        assert(monitors@.skip(n as int) =~= Seq::<MonitorInfo>::empty());
    }
    if monitors.len() > 0 {
        Some(monitors[0])
    } else {
        None
    }
}

/// The well-known storage key of the window geometry blob.
pub open spec fn window_key() -> Seq<char> {
    "window"@
}

/// The well-known storage key of the UI memory blob.
pub open spec fn egui_memory_key() -> Seq<char> {
    "egui"@
}

/// For loading and saving app state and UI memory. The host resolves the
/// per-user data directory; without one, persistence is disabled for the
/// session.
pub fn create_storage(_app_name: &str, storage_dir_found: bool) -> (r: Option<Storage>)
    ensures
        r is Some <==> storage_dir_found,
        r matches Some(st) ==> st@ == Seq::<(Seq<char>, Seq<u8>)>::empty()
            && st.durable_view() == Seq::<(Seq<char>, Seq<u8>)>::empty(),
{
    if storage_dir_found {
        Some(Storage::new())
    } else {
        None
    }
}

/// A store backed by one explicit file, seeded with whatever entries the
/// host read back from it; a missing or unreadable file seeds nothing.
pub fn create_storage_with_file(saved: Vec<crate::storage::StorageEntry>) -> (r: Option<Storage>)
    ensures
        r matches Some(st) && st@ == crate::storage::entries_view(saved@) && st.durable_view()
            == crate::storage::entries_view(saved@),
{
    Some(Storage::from_saved(saved))
}

/// What loading window settings from a store yields: the decoded blob under
/// the window key, if a well-formed one is there.
pub open spec fn spec_load_window_settings(s: crate::storage::StoreView) -> Option<
    WindowSettings,
> {
    match spec_lookup(s, window_key()) {
        Some(b) => spec_decode_settings(b),
        None => None,
    }
}

/// Restore window geometry from the store; a missing store, missing key or
/// malformed blob all degrade to nothing.
pub fn load_window_settings(storage: Option<&Storage>) -> (r: Option<WindowSettings>)
    ensures
        match storage {
            Some(s) => r == spec_load_window_settings(s@),
            None => r is None,
        },
{
    let s = match storage {
        Some(s) => s,
        None => {
            return None;
        },
    };
    let key = String::from_str("window");
    match s.get(&key) {
        Some(blob) => decode_settings(blob),
        None => None,
    }
}

/// Restore the UI memory blob from the store; a missing store or key
/// degrades to nothing.
pub fn load_egui_memory(storage: Option<&Storage>) -> (r: Option<Vec<u8>>)
    ensures
        match storage {
            Some(s) => match spec_lookup(s@, egui_memory_key()) {
                Some(b) => r matches Some(v) && v@ == b,
                None => r is None,
            },
            None => r is None,
        },
{
    let s = match storage {
        Some(s) => s,
        None => {
            return None;
        },
    };
    let key = String::from_str("egui");
    match s.get(&key) {
        Some(blob) => Some(clone_bytes(blob)),
        None => None,
    }
}

/// The mutable state of one native window, as the host mirrors it for the
/// integration: the windowing layer is the sink that makes these fields
/// real.
#[derive(Debug)]
pub struct WindowState {
    /// The window title.
    pub title: String,
    /// Logical position of the outer top-left corner.
    pub outer_pos: Pos2,
    /// Logical size of the inner content area.
    pub inner_size: Vec2,
    /// Whether the window is maximized.
    pub maximized: bool,
    /// Whether the window is shown at all.
    pub visible: bool,
}

/// Apply previously restored geometry to an existing window, for platforms
/// that cannot set it at construction time; applying the same settings
/// twice leaves the window as after the first time.
pub fn apply_window_settings(window: &mut WindowState, window_settings: Option<WindowSettings>)
    ensures
        match window_settings {
            Some(ws) => final(window).outer_pos == ws.pos && final(window).inner_size == ws.size
                && final(window).maximized == ws.maximized && final(window).title == old(
                window,
            ).title && final(window).visible == old(window).visible,
            None => *final(window) == *old(window),
        },
{
    if let Some(ws) = window_settings {
        window.outer_pos = ws.pos;
        window.inner_size = ws.size;
        window.maximized = ws.maximized;
    }
}

/// The geometry a window would be saved with.
pub fn window_settings_from_window(window: &WindowState) -> (r: WindowSettings)
    ensures
        r.pos == window.outer_pos,
        r.size == window.inner_size,
        r.maximized == window.maximized,
{
    WindowSettings {
        pos: window.outer_pos,
        size: window.inner_size,
        maximized: window.maximized,
    }
}

/// Whether sizes are clamped to the largest monitor; unset means yes.
pub open spec fn spec_effective_clamp(vb: ViewportBuilder) -> bool {
    match vb.clamp_size_to_monitor_size {
        Some(b) => b,
        None => true,
    }
}

/// Restored geometry after clamping: the size is cut down to the largest
/// monitor (when clamping is on), then the position is clamped into the
/// reachable monitor area (when one is known), using the already-clamped
/// size.
pub open spec fn spec_restored_geometry(
    ws0: WindowSettings,
    clamp: bool,
    largest: (int, int),
    bounds: Option<(int, int, int, int)>,
) -> WindowSettings {
    let size1 = if clamp {
        Vec2 {
            x: crate::geom::spec_min(ws0.size.x as int, largest.0) as i64,
            y: crate::geom::spec_min(ws0.size.y as int, largest.1) as i64,
        }
    } else {
        ws0.size
    };
    let pos1 = match bounds {
        Some(b) => Pos2 {
            x: spec_clamp(ws0.pos.x as int, b.0, b.2 - size1.x) as i64,
            y: spec_clamp(ws0.pos.y as int, b.1, b.3 - size1.y) as i64,
        },
        None => ws0.pos,
    };
    WindowSettings { pos: pos1, size: size1, maximized: ws0.maximized }
}

/// The position, inner size and maximized flag the window is created with,
/// before centering: restored geometry wins over the requested one; a
/// requested size is clamped to the largest monitor when clamping is on.
pub open spec fn spec_requested_geometry(
    options: NativeOptions,
    restored: Option<WindowSettings>,
    clamp: bool,
    largest: (int, int),
    bounds: Option<(int, int, int, int)>,
) -> (Option<Pos2>, Option<Vec2>, Option<bool>) {
    match restored {
        Some(ws0) => {
            let ws2 = spec_restored_geometry(ws0, clamp, largest, bounds);
            (Some(ws2.pos), Some(ws2.size), Some(ws2.maximized))
        },
        None => {
            let inner = match options.viewport.inner_size {
                Some(s) => if clamp {
                    Some(
                        Vec2 {
                            x: crate::geom::spec_min(s.x as int, largest.0) as i64,
                            y: crate::geom::spec_min(s.y as int, largest.1) as i64,
                        },
                    )
                } else {
                    Some(s)
                },
                None => None,
            };
            (options.viewport.position, inner, options.viewport.maximized)
        },
    }
}

/// Where a centered window goes: on the primary (or first) monitor with a
/// usable mode, the window — of the known inner size, or of an assumed
/// 800 by 600 — is centered from the desktop origin; without such a
/// monitor, or with a degenerate one, there is no centered position.
pub open spec fn spec_centered_position(
    ms: Seq<MonitorInfo>,
    zoom_pct: int,
    inner: Option<Vec2>,
) -> Option<Pos2> {
    match spec_primary_or_first(ms) {
        Some(m) => match m.mode_size {
            Some(ps) => {
                let mw = spec_logical(ps.width as int, zoom_pct, m.scale_pct as int);
                let mh = spec_logical(ps.height as int, zoom_pct, m.scale_pct as int);
                let iw = match inner {
                    Some(s) => s.x as int,
                    None => 800,
                };
                let ih = match inner {
                    Some(s) => s.y as int,
                    None => 600,
                };
                if 0 < mw && 0 < mh {
                    Some(Pos2 { x: spec_div2(mw - iw) as i64, y: spec_div2(mh - ih) as i64 })
                } else {
                    None
                }
            },
            None => None,
        },
        None => None,
    }
}

/// The full initial window specification: requested options, overridden by
/// clamped restored geometry, overridden (in position) by centering when
/// asked for — so centering wins when both a position and centering are
/// requested.
pub open spec fn spec_viewport_builder(
    zoom_pct: int,
    ms: Seq<MonitorInfo>,
    options: NativeOptions,
    restored: Option<WindowSettings>,
) -> ViewportBuilder {
    let clamp = spec_effective_clamp(options.viewport);
    let g = spec_requested_geometry(
        options,
        restored,
        clamp,
        spec_largest_size(ms, zoom_pct),
        spec_monitor_bounds(ms, zoom_pct),
    );
    let pos = if options.centered {
        match spec_centered_position(ms, zoom_pct, g.1) {
            Some(p) => Some(p),
            None => g.0,
        }
    } else {
        g.0
    };
    ViewportBuilder {
        title: options.viewport.title,
        position: pos,
        inner_size: g.1,
        maximized: g.2,
        clamp_size_to_monitor_size: options.viewport.clamp_size_to_monitor_size,
        icon: options.viewport.icon,
    }
}

/// The monitor that `spec_first_primary` picks is one of the list.
proof fn lemma_first_primary_in(ms: Seq<MonitorInfo>)
    ensures
        spec_first_primary(ms) matches Some(m) ==> exists|i: int|
            0 <= i < ms.len() && #[trigger] ms[i] == m,
    decreases ms.len(),
{
    if ms.len() > 0 && !ms[0].is_primary {
        lemma_first_primary_in(ms.drop_first());
        if let Some(m) = spec_first_primary(ms.drop_first()) {
            let i = choose|i: int| 0 <= i < ms.drop_first().len() && #[trigger] ms.drop_first()[i]
                == m;
            assert(ms[i + 1] == m);
        }
    }
}

/// The centered position of the initial window, when centering applies.
pub fn centered_position(
    egui_zoom_pct: u64,
    monitors: &Vec<MonitorInfo>,
    inner: Option<Vec2>,
) -> (r: Option<Pos2>)
    requires
        zoom_ok(egui_zoom_pct as int),
        monitors_ok(monitors@),
        inner matches Some(s) ==> s.ok(),
    ensures
        r == spec_centered_position(monitors@, egui_zoom_pct as int, inner),
{
    let m = match primary_or_first_monitor(monitors) {
        Some(m) => m,
        None => {
            return None;
        },
    };
    proof {
        lemma_first_primary_in(monitors@);
        assert(monitor_ok(m)) by {
            if spec_first_primary(monitors@) is Some {
                let i = choose|i: int|
                    0 <= i < monitors@.len() && #[trigger] monitors@[i] == m;
                assert(monitor_ok(monitors@[i]));
            } else {
                assert(monitor_ok(monitors@[0]));
            }
        }
    }
    let ps = match m.mode_size {
        Some(ps) => ps,
        None => {
            return None;
        },
    };
    let mw = logical_len(ps.width, egui_zoom_pct, m.scale_pct);
    let mh = logical_len(ps.height, egui_zoom_pct, m.scale_pct);
    let iw: i64 = match inner {
        Some(s) => s.x,
        None => 800,
    };
    let ih: i64 = match inner {
        Some(s) => s.y,
        None => 600,
    };
    if 0 < mw && 0 < mh {
        Some(Pos2 { x: div2(mw - iw), y: div2(mh - ih) })
    } else {
        None
    }
}

/// Compute the initial window specification from the requested options, a
/// previous session's restored geometry, and the connected monitors: a
/// restored size is clamped to the largest monitor (unless clamping is
/// disabled), the restored position is clamped so the window stays
/// reachable, and a centering request positions the window on the primary
/// monitor as the final step, so centering wins over an explicit position.
pub fn viewport_builder(
    egui_zoom_pct: u64,
    monitors: &Vec<MonitorInfo>,
    native_options: &NativeOptions,
    window_settings: Option<WindowSettings>,
) -> (r: ViewportBuilder)
    requires
        zoom_ok(egui_zoom_pct as int),
        monitors_ok(monitors@),
        window_settings matches Some(ws) ==> ws.ok(),
        native_options.viewport.position matches Some(p) ==> p.ok(),
        native_options.viewport.inner_size matches Some(s) ==> s.ok(),
    ensures
        r == spec_viewport_builder(
            egui_zoom_pct as int,
            monitors@,
            *native_options,
            window_settings,
        ),
{
    let clamp_size_to_monitor_size = match native_options.viewport.clamp_size_to_monitor_size {
        Some(b) => b,
        None => true,
    };
    let largest = largest_monitor_point_size(egui_zoom_pct, monitors);
    let bounds = monitor_bounds(egui_zoom_pct, monitors);
    let (position, inner_size, maximized) = match window_settings {
        Some(ws) => {
            let mut ws = ws;
            if clamp_size_to_monitor_size {
                ws.clamp_size_to_sane_values(largest);
            }
            if let Some(b) = bounds {
                ws.clamp_position_to_monitors(b);
            }
            (Some(ws.pos), Some(ws.inner_size_points()), Some(ws.maximized))
        },
        None => {
            let inner = match native_options.viewport.inner_size {
                Some(s) => if clamp_size_to_monitor_size {
                    Some(s.min(largest))
                } else {
                    Some(s)
                },
                None => None,
            };
            (native_options.viewport.position, inner, native_options.viewport.maximized)
        },
    };
    let position = if native_options.centered {
        match centered_position(egui_zoom_pct, monitors, inner_size) {
            Some(p) => Some(p),
            None => position,
        }
    } else {
        position
    };
    let title = match &native_options.viewport.title {
        Some(t) => Some(t.clone()),
        None => None,
    };
    ViewportBuilder {
        title,
        position,
        inner_size,
        maximized,
        clamp_size_to_monitor_size: native_options.viewport.clamp_size_to_monitor_size,
        icon: native_options.viewport.icon,
    }
}

/// When monitor enumeration yields no usable mode at all, the largest-size
/// query falls back to a very large sentinel — both components at least
/// ten thousand, never a zero size that would clamp every window to
/// nothing.
pub proof fn lemma_largest_monitor_sentinel(ms: Seq<MonitorInfo>, zoom_pct: int)
    requires
        forall|i: int| 0 <= i < ms.len() ==> (#[trigger] ms[i]).mode_size is None,
    ensures
        spec_largest_size(ms, zoom_pct) == (16000int, 16000int),
        spec_largest_size(ms, zoom_pct).0 >= 10_000,
        spec_largest_size(ms, zoom_pct).1 >= 10_000,
{
    assert(spec_largest_monitor(ms, zoom_pct) == (0int, 0int)) by {
        lemma_largest_monitor_no_modes(ms, zoom_pct);
    }
}

/// Without any usable mode the raw maximum is zero by zero.
proof fn lemma_largest_monitor_no_modes(ms: Seq<MonitorInfo>, zoom_pct: int)
    requires
        forall|i: int| 0 <= i < ms.len() ==> (#[trigger] ms[i]).mode_size is None,
    ensures
        spec_largest_monitor(ms, zoom_pct) == (0int, 0int),
    decreases ms.len(),
{
    if ms.len() > 0 {
        assert(forall|i: int| 0 <= i < ms.len() - 1 ==> ms.drop_last()[i] == #[trigger] ms[i]);
        lemma_largest_monitor_no_modes(ms.drop_last(), zoom_pct);
        assert(ms.last().mode_size is None);
    }
}

/// How the close flag evolves over one root pass: a close request without a
/// veto sets it; once set, nothing clears it.
pub open spec fn spec_next_close(
    close: bool,
    is_root: bool,
    close_requested: bool,
    vetoed: bool,
) -> bool {
    close || (is_root && close_requested && !vetoed)
}

/// Whether an automatic save is due: strictly more than the interval has
/// passed since the last one.
pub open spec fn spec_autosave_due(last_millis: int, now_millis: int, interval_millis: int) -> bool {
    now_millis - last_millis > interval_millis
}

/// Whether a window event is a primary-button press, which permits
/// window-drag-via-content gestures later.
pub open spec fn spec_is_primary_press(event: WindowEvent) -> bool {
    event == (WindowEvent::PointerButtonPressed { button: PointerButton::Primary })
}

/// Everything needed to run the UI across frames. Only one instance per
/// app, not one per viewport.
#[derive(Debug)]
pub struct EpiIntegration {
    /// The per-frame handle handed to the application.
    pub frame: Frame,
    /// Host-clock instant of the last automatic save, in milliseconds.
    pub last_auto_save_millis: u64,
    /// Host-clock instant the integration started at; pass times count from
    /// here.
    pub beginning_millis: u64,
    /// Whether the first visible paint is still pending.
    pub is_first_frame: bool,
    /// The UI engine's persistent state.
    pub egui_ctx: UiContext,
    /// Output accumulated since a backend last consumed it.
    pub pending_full_output: FullOutput,
    /// When set, it is time to close the native window; never cleared.
    pub close: bool,
    /// Whether a primary-button press has been seen.
    pub can_drag_window: bool,
    /// Whether window geometry is persisted on save.
    pub persist_window: bool,
    /// The resolved window title.
    pub app_title: String,
    /// Handle of the host-registered icon; absent means the embedded
    /// default icon.
    pub app_icon: Option<u64>,
    /// Whether title and icon have been applied to the native window.
    pub title_icon_applied: bool,
}

impl EpiIntegration {
    /// Build the per-session state: the title falls back to the app name,
    /// now becomes both the elapsed-time origin and the last-autosave time,
    /// the first visible paint is pending, and no close was requested.
    pub fn new(
        egui_ctx: UiContext,
        app_name: &str,
        native_options: &NativeOptions,
        storage: Option<Storage>,
        now_millis: u64,
    ) -> (r: EpiIntegration)
        ensures
            r.frame.info.cpu_usage_micros is None,
            r.frame.storage == storage,
            r.last_auto_save_millis == now_millis,
            r.beginning_millis == now_millis,
            r.is_first_frame,
            r.egui_ctx == egui_ctx,
            r.pending_full_output@ == empty_output(),
            !r.close,
            !r.can_drag_window,
            r.persist_window == native_options.persist_window,
            r.app_title@ == match native_options.viewport.title {
                Some(t) => t@,
                None => app_name@,
            },
            r.app_icon == native_options.viewport.icon,
            !r.title_icon_applied,
    {
        let app_title = match &native_options.viewport.title {
            Some(t) => t.clone(),
            None => String::from_str(app_name),
        };
        EpiIntegration {
            frame: Frame { info: IntegrationInfo { cpu_usage_micros: None }, storage },
            last_auto_save_millis: now_millis,
            beginning_millis: now_millis,
            is_first_frame: true,
            egui_ctx,
            pending_full_output: FullOutput::new(),
            close: false,
            can_drag_window: false,
            persist_window: native_options.persist_window,
            app_title,
            app_icon: native_options.viewport.icon,
            title_icon_applied: false,
        }
    }

    /// If true, it is time to close the native window.
    pub fn should_close(&self) -> (r: bool)
        ensures
            r == self.close,
    {
        self.close
    }

    /// Track a native window event: a primary-button press is remembered,
    /// and the input translator's response is passed through unchanged.
    /// Nothing else of the UI state is touched.
    pub fn on_window_event(&mut self, event: &WindowEvent, translated: EventResponse) -> (r:
        EventResponse)
        ensures
            final(self).can_drag_window == (old(self).can_drag_window || spec_is_primary_press(
                *event,
            )),
            r == translated,
            final(self).frame == old(self).frame,
            final(self).last_auto_save_millis == old(self).last_auto_save_millis,
            final(self).beginning_millis == old(self).beginning_millis,
            final(self).is_first_frame == old(self).is_first_frame,
            final(self).egui_ctx == old(self).egui_ctx,
            final(self).pending_full_output@ == old(self).pending_full_output@,
            final(self).close == old(self).close,
            final(self).persist_window == old(self).persist_window,
            final(self).app_title == old(self).app_title,
            final(self).app_icon == old(self).app_icon,
            final(self).title_icon_applied == old(self).title_icon_applied,
    {
        match event {
            WindowEvent::PointerButtonPressed { button: PointerButton::Primary } => {
                self.can_drag_window = true;
            },
            _ => {},
        }
        translated
    }

    /// Keep the window's title and icon applied: the first call hands the
    /// title out for the host to set, later calls nothing.
    pub fn pre_update(&mut self) -> (r: Option<String>)
        ensures
            match r {
                Some(t) => !old(self).title_icon_applied && t@ == old(self).app_title@,
                None => old(self).title_icon_applied,
            },
            final(self).title_icon_applied,
            final(self).frame == old(self).frame,
            final(self).last_auto_save_millis == old(self).last_auto_save_millis,
            final(self).beginning_millis == old(self).beginning_millis,
            final(self).is_first_frame == old(self).is_first_frame,
            final(self).egui_ctx == old(self).egui_ctx,
            final(self).pending_full_output@ == old(self).pending_full_output@,
            final(self).close == old(self).close,
            final(self).can_drag_window == old(self).can_drag_window,
            final(self).persist_window == old(self).persist_window,
            final(self).app_title == old(self).app_title,
            final(self).app_icon == old(self).app_icon,
    {
        if self.title_icon_applied {
            None
        } else {
            self.title_icon_applied = true;
            Some(self.app_title.clone())
        }
    }

    /// Stamp the pass input with the time elapsed since the integration
    /// started. The host then lets the application's input hook run and
    /// hands the input to the UI engine.
    pub fn prepare_raw_input(&self, raw_input: &mut RawInput, now_millis: u64)
        requires
            now_millis >= self.beginning_millis,
        ensures
            final(raw_input).time_millis == Some((now_millis - self.beginning_millis) as u64),
            final(raw_input).close_requested == old(raw_input).close_requested,
    {
        raw_input.time_millis = Some(now_millis - self.beginning_millis);
    }

    /// Finish one logical UI pass. For a root pass with a pending close
    /// request, the pass output decides: a cancel-close command addressed
    /// to the root viewport vetoes the close, otherwise the close flag is
    /// set, and once set it is never cleared. The pass output is then
    /// merged into the pending buffer — accumulated, not replaced — and the
    /// whole accumulated buffer is returned, leaving the buffer empty.
    ///
    /// The host runs the engine pass itself (calling the application's
    /// `update` for the root viewport, or the child-viewport callback) and
    /// hands the pass output here; `viewport_is_root` says which kind of
    /// pass it was, and `close_requested` is taken from the pass's raw
    /// input.
    pub fn update(
        &mut self,
        viewport_is_root: bool,
        close_requested: bool,
        pass_output: FullOutput,
    ) -> (r: FullOutput)
        ensures
            final(self).close == spec_next_close(
                old(self).close,
                viewport_is_root,
                close_requested,
                spec_has_cancel_close(pass_output@.commands, ViewportId(0)),
            ),
            r@ == merge_output(old(self).pending_full_output@, pass_output@),
            final(self).pending_full_output@ == empty_output(),
            final(self).frame == old(self).frame,
            final(self).last_auto_save_millis == old(self).last_auto_save_millis,
            final(self).beginning_millis == old(self).beginning_millis,
            final(self).is_first_frame == old(self).is_first_frame,
            final(self).egui_ctx == old(self).egui_ctx,
            final(self).can_drag_window == old(self).can_drag_window,
            final(self).persist_window == old(self).persist_window,
            final(self).app_title == old(self).app_title,
            final(self).app_icon == old(self).app_icon,
            final(self).title_icon_applied == old(self).title_icon_applied,
    {
        if viewport_is_root && close_requested {
            let canceled = pass_output.has_cancel_close(ViewportId::root());
            if !canceled {
                self.close = true;
            }
        }
        self.pending_full_output.append(pass_output);
        self.pending_full_output.take()
    }

    /// Record the CPU time of the last completed frame for telemetry.
    pub fn report_frame_time(&mut self, micros: u64)
        ensures
            final(self).frame.info.cpu_usage_micros == Some(micros),
            final(self).frame.storage == old(self).frame.storage,
            final(self).last_auto_save_millis == old(self).last_auto_save_millis,
            final(self).beginning_millis == old(self).beginning_millis,
            final(self).is_first_frame == old(self).is_first_frame,
            final(self).egui_ctx == old(self).egui_ctx,
            final(self).pending_full_output@ == old(self).pending_full_output@,
            final(self).close == old(self).close,
            final(self).can_drag_window == old(self).can_drag_window,
            final(self).persist_window == old(self).persist_window,
            final(self).app_title == old(self).app_title,
            final(self).app_icon == old(self).app_icon,
            final(self).title_icon_applied == old(self).title_icon_applied,
    {
        self.frame.info.cpu_usage_micros = Some(micros);
    }

    /// After the first paint only, make the window visible: it starts
    /// hidden so no empty frame ever flashes.
    pub fn post_rendering(&mut self, window: &mut WindowState)
        ensures
            !final(self).is_first_frame,
            old(self).is_first_frame ==> final(window).visible && final(window).title == old(
                window,
            ).title && final(window).outer_pos == old(window).outer_pos && final(window).inner_size
                == old(window).inner_size && final(window).maximized == old(window).maximized,
            !old(self).is_first_frame ==> *final(window) == *old(window),
            final(self).frame == old(self).frame,
            final(self).last_auto_save_millis == old(self).last_auto_save_millis,
            final(self).beginning_millis == old(self).beginning_millis,
            final(self).egui_ctx == old(self).egui_ctx,
            final(self).pending_full_output@ == old(self).pending_full_output@,
            final(self).close == old(self).close,
            final(self).can_drag_window == old(self).can_drag_window,
            final(self).persist_window == old(self).persist_window,
            final(self).app_title == old(self).app_title,
            final(self).app_icon == old(self).app_icon,
            final(self).title_icon_applied == old(self).title_icon_applied,
    {
        if self.is_first_frame {
            self.is_first_frame = false;
            window.visible = true;
        }
    }

    /// Write window geometry (when window persistence is on and a window is
    /// given) and the UI memory blob (when asked) into the store; a session
    /// without a store is left untouched. Every other key keeps its blob,
    /// and nothing is made durable yet.
    pub fn save_with(&mut self, window: Option<&WindowSettings>, persist_mem: bool)
        requires
            window matches Some(ws) ==> ws.ok(),
        ensures
            old(self).frame.storage is None ==> *final(self) == *old(self),
            old(self).frame.storage matches Some(st0) ==> final(self).frame.storage matches Some(
                st1,
            ) && st1.durable_view() == st0.durable_view() && (match window {
                Some(ws) => old(self).persist_window ==> spec_lookup(st1@, window_key()) == Some(
                    spec_encode_settings(*ws),
                ),
                None => true,
            }) && (!(old(self).persist_window && window is Some) ==> spec_lookup(
                st1@,
                window_key(),
            ) == spec_lookup(st0@, window_key())) && (persist_mem ==> spec_lookup(
                st1@,
                egui_memory_key(),
            ) == Some(old(self).egui_ctx.memory@)) && (!persist_mem ==> spec_lookup(
                st1@,
                egui_memory_key(),
            ) == spec_lookup(st0@, egui_memory_key())) && (forall|k: Seq<char>|
                k != window_key() && k != egui_memory_key() ==> spec_lookup(st1@, k) == spec_lookup(
                    st0@,
                    k,
                )),
            final(self).frame.info == old(self).frame.info,
            final(self).last_auto_save_millis == old(self).last_auto_save_millis,
            final(self).beginning_millis == old(self).beginning_millis,
            final(self).is_first_frame == old(self).is_first_frame,
            final(self).egui_ctx == old(self).egui_ctx,
            final(self).pending_full_output@ == old(self).pending_full_output@,
            final(self).close == old(self).close,
            final(self).can_drag_window == old(self).can_drag_window,
            final(self).persist_window == old(self).persist_window,
            final(self).app_title == old(self).app_title,
            final(self).app_icon == old(self).app_icon,
            final(self).title_icon_applied == old(self).title_icon_applied,
    {
        proof {
            reveal_strlit("window");
            reveal_strlit("egui");
            assert(window_key().len() == 6);
            assert(egui_memory_key().len() == 4);
            assert(window_key() != egui_memory_key());
        }
        let persist_window = self.persist_window;
        match &mut self.frame.storage {
            Some(st) => {
                if persist_window {
                    if let Some(ws) = window {
                        let key = String::from_str("window");
                        let blob = encode_settings(ws);
                        st.set(&key, blob);
                    }
                }
                if persist_mem {
                    let key = String::from_str("egui");
                    let blob = clone_bytes(&self.egui_ctx.memory);
                    st.set(&key, blob);
                }
            },
            None => {},
        }
    }

    /// A full save: window geometry, then UI memory, then the application's
    /// own state, then a flush that makes it all durable. A later step is
    /// never skipped because an earlier one had nothing to do; without a
    /// store the whole save is a no-op.
    pub fn save<A: App>(&mut self, app: &mut A, window: Option<&WindowSettings>)
        requires
            window matches Some(ws) ==> ws.ok(),
        ensures
            old(self).frame.storage is None ==> *final(self) == *old(self),
            old(self).frame.storage is Some ==> (final(self).frame.storage matches Some(st)
                && st.durable_view() == st@),
            final(self).frame.info == old(self).frame.info,
            final(self).last_auto_save_millis == old(self).last_auto_save_millis,
            final(self).beginning_millis == old(self).beginning_millis,
            final(self).is_first_frame == old(self).is_first_frame,
            final(self).egui_ctx == old(self).egui_ctx,
            final(self).pending_full_output@ == old(self).pending_full_output@,
            final(self).close == old(self).close,
            final(self).can_drag_window == old(self).can_drag_window,
            final(self).persist_window == old(self).persist_window,
            final(self).app_title == old(self).app_title,
            final(self).app_icon == old(self).app_icon,
            final(self).title_icon_applied == old(self).title_icon_applied,
    {
        if self.frame.storage.is_none() {
            return ;
        }
        let persist_mem = app.persist_egui_memory();
        self.save_with(window, persist_mem);
        match &mut self.frame.storage {
            Some(st) => {
                app.save(st);
                st.flush();
            },
            None => {},
        }
    }

    /// Debounced autosave against an explicit interval: a save happens
    /// exactly when more than the interval has passed since the last one,
    /// and then the timer is reset to now; otherwise nothing happens at
    /// all. This is a polling check — the host calls it once per frame
    /// tick.
    pub fn maybe_autosave_with_interval<A: App>(
        &mut self,
        app: &mut A,
        window: Option<&WindowSettings>,
        now_millis: u64,
        interval_millis: u64,
    )
        requires
            now_millis >= old(self).last_auto_save_millis,
            window matches Some(ws) ==> ws.ok(),
        ensures
            spec_autosave_due(
                old(self).last_auto_save_millis as int,
                now_millis as int,
                interval_millis as int,
            ) ==> final(self).last_auto_save_millis == now_millis && (old(self).frame.storage
                is Some ==> (final(self).frame.storage matches Some(st) && st.durable_view()
                == st@)) && (old(self).frame.storage is None ==> final(self).frame.storage
                is None),
            !spec_autosave_due(
                old(self).last_auto_save_millis as int,
                now_millis as int,
                interval_millis as int,
            ) ==> *final(self) == *old(self) && *final(app) == *old(app),
            final(self).frame.info == old(self).frame.info,
            final(self).beginning_millis == old(self).beginning_millis,
            final(self).is_first_frame == old(self).is_first_frame,
            final(self).egui_ctx == old(self).egui_ctx,
            final(self).pending_full_output@ == old(self).pending_full_output@,
            final(self).close == old(self).close,
            final(self).can_drag_window == old(self).can_drag_window,
            final(self).persist_window == old(self).persist_window,
            final(self).app_title == old(self).app_title,
            final(self).app_icon == old(self).app_icon,
            final(self).title_icon_applied == old(self).title_icon_applied,
    {
        if now_millis - self.last_auto_save_millis > interval_millis {
            self.save(app, window);
            self.last_auto_save_millis = now_millis;
        }
    }

    /// Debounced autosave against the application's configured interval.
    pub fn maybe_autosave<A: App>(
        &mut self,
        app: &mut A,
        window: Option<&WindowSettings>,
        now_millis: u64,
    )
        requires
            now_millis >= old(self).last_auto_save_millis,
            window matches Some(ws) ==> ws.ok(),
        ensures
            final(self).last_auto_save_millis == now_millis || final(self).last_auto_save_millis
                == old(self).last_auto_save_millis,
            final(self).frame.info == old(self).frame.info,
            final(self).beginning_millis == old(self).beginning_millis,
            final(self).is_first_frame == old(self).is_first_frame,
            final(self).egui_ctx == old(self).egui_ctx,
            final(self).pending_full_output@ == old(self).pending_full_output@,
            final(self).close == old(self).close,
            final(self).can_drag_window == old(self).can_drag_window,
            final(self).persist_window == old(self).persist_window,
            final(self).app_title == old(self).app_title,
            final(self).app_icon == old(self).app_icon,
            final(self).title_icon_applied == old(self).title_icon_applied,
    {
        let interval = app.auto_save_interval_millis();
        self.maybe_autosave_with_interval(app, window, now_millis, interval);
    }
}

/// Once a close request passes unvetoed, the flag is set; a vetoed request
/// leaves it unset; and a set flag survives every later pass, so there is
/// at most one unset-to-set transition per session.
pub proof fn lemma_close_veto_protocol()
    ensures
        !spec_next_close(false, true, true, true),
        spec_next_close(false, true, true, false),
        forall|is_root: bool, req: bool, veto: bool| spec_next_close(true, is_root, req, veto),
        forall|is_root: bool, req: bool, veto: bool, c: bool|
            c ==> spec_next_close(c, is_root, req, veto),
{
}

/// Autosave debounce: while no more than the interval has passed since the
/// last save, no poll fires; and after one fires and resets the timer, a
/// second poll within the interval of the first cannot fire again — two
/// polls within one interval trigger at most one save.
pub proof fn lemma_autosave_debounce(last: int, interval: int, n1: int, n2: int)
    requires
        last <= n1 <= n2,
    ensures
        n2 - last <= interval ==> !spec_autosave_due(last, n1, interval) && !spec_autosave_due(
            last,
            n2,
            interval,
        ),
        spec_autosave_due(last, n1, interval) && n2 - n1 <= interval ==> !spec_autosave_due(
            n1,
            n2,
            interval,
        ),
{
}

/// Geometry clamp monotonicity: a requested length within the monitor
/// bound is kept exactly, and one above it is clamped to the bound, so the
/// result never exceeds the bound.
pub proof fn lemma_clamp_size_monotone(requested: int, bound: int)
    ensures
        requested <= bound ==> crate::geom::spec_min(requested, bound) == requested,
        requested > bound ==> crate::geom::spec_min(requested, bound) == bound,
        crate::geom::spec_min(requested, bound) <= bound || crate::geom::spec_min(requested, bound)
            == requested,
{
}

} // verus!
