use eframe::epi_integration::{
    create_storage, create_storage_with_file, load_egui_memory, load_window_settings,
};
use eframe::geom::{Pos2, Vec2};
use eframe::settings::{decode_settings, encode_settings, WindowSettings};
use eframe::storage::{Storage, StorageEntry};

fn settings(px: i64, py: i64, sx: i64, sy: i64, maximized: bool) -> WindowSettings {
    WindowSettings {
        pos: Pos2 { x: px, y: py },
        size: Vec2 { x: sx, y: sy },
        maximized,
    }
}

#[test]
fn storage_get_of_missing_key_is_none() {
    let st = Storage::new();
    assert!(st.get(&"window".to_string()).is_none());
}

#[test]
fn storage_set_then_get_returns_value() {
    let mut st = Storage::new();
    st.set(&"window".to_string(), vec![1, 2, 3]);
    assert_eq!(st.get(&"window".to_string()), Some(&vec![1, 2, 3]));
    assert!(st.get(&"egui".to_string()).is_none());
}

#[test]
fn storage_set_replaces_existing_binding() {
    let mut st = Storage::new();
    st.set(&"k".to_string(), vec![1]);
    st.set(&"k".to_string(), vec![2]);
    assert_eq!(st.get(&"k".to_string()), Some(&vec![2]));
}

#[test]
fn storage_flush_makes_entries_durable() {
    let mut st = Storage::new();
    st.set(&"k".to_string(), vec![9]);
    assert!(st.durable_entries().is_empty());
    st.flush();
    let durable = st.durable_entries();
    assert_eq!(durable.len(), 1);
    assert_eq!(durable[0].key, "k");
    assert_eq!(durable[0].value, vec![9]);
}

#[test]
fn storage_from_saved_is_durable_at_once() {
    let st = Storage::from_saved(vec![StorageEntry {
        key: "a".to_string(),
        value: vec![7],
    }]);
    assert_eq!(st.get(&"a".to_string()), Some(&vec![7]));
    assert_eq!(st.durable_entries().len(), 1);
}

#[test]
fn settings_encode_decode_roundtrip() {
    let ws = settings(10, 20, 800, 600, false);
    let blob = encode_settings(&ws);
    assert_eq!(decode_settings(&blob), Some(ws));
}

#[test]
fn settings_roundtrip_negative_and_maximized() {
    let ws = settings(-50, -50, 4000, 4000, true);
    let blob = encode_settings(&ws);
    assert_eq!(decode_settings(&blob), Some(ws));
}

#[test]
fn settings_decode_rejects_garbage() {
    assert_eq!(decode_settings(&vec![]), None);
    assert_eq!(decode_settings(&vec![0u8; 49]), None);
    assert_eq!(decode_settings(&b"not a settings blob".to_vec()), None);
}

#[test]
fn settings_decode_rejects_truncated_blob() {
    let ws = settings(1, 2, 3, 4, false);
    let mut blob = encode_settings(&ws);
    blob.pop();
    assert_eq!(decode_settings(&blob), None);
}

#[test]
fn settings_decode_rejects_bad_flag() {
    let ws = settings(1, 2, 3, 4, false);
    let mut blob = encode_settings(&ws);
    let last = blob.len() - 1;
    blob[last] = b'x';
    assert_eq!(decode_settings(&blob), None);
}

#[test]
fn window_settings_roundtrip_through_store() {
    // Persistence round trip: saving the settings, then loading from the
    // same store key, yields an equal struct.
    let ws = settings(10, 20, 800, 600, false);
    let mut st = Storage::new();
    st.set(&"window".to_string(), encode_settings(&ws));
    assert_eq!(load_window_settings(Some(&st)), Some(ws));
}

#[test]
fn load_window_settings_from_empty_store_is_none() {
    let st = Storage::new();
    assert_eq!(load_window_settings(Some(&st)), None);
    assert_eq!(load_window_settings(None), None);
}

#[test]
fn load_egui_memory_returns_blob() {
    let mut st = Storage::new();
    st.set(&"egui".to_string(), vec![4, 5, 6]);
    assert_eq!(load_egui_memory(Some(&st)), Some(vec![4, 5, 6]));
    assert_eq!(load_egui_memory(None), None);
    let empty = Storage::new();
    assert_eq!(load_egui_memory(Some(&empty)), None);
}

#[test]
fn create_storage_depends_on_data_dir() {
    assert!(create_storage("demo", true).is_some());
    assert!(create_storage("demo", false).is_none());
}

#[test]
fn create_storage_with_file_seeds_entries() {
    let st = create_storage_with_file(vec![StorageEntry {
        key: "window".to_string(),
        value: vec![1],
    }])
    .unwrap();
    assert_eq!(st.get(&"window".to_string()), Some(&vec![1]));
}
