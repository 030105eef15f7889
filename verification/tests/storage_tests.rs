use screencap::storage::{
    filename_for, CaptureHistory, CaptureItem, CaptureType, StorageLocation, StorageManager,
};
use screencap::timestamp::Timestamp;

fn item(id: &str, filename: &str) -> CaptureItem {
    CaptureItem {
        id: id.to_string(),
        capture_type: CaptureType::Screenshot,
        filename: filename.to_string(),
        created_at: "2024-01-01T00:00:00+00:00".to_string(),
        is_favorite: false,
    }
}

#[test]
fn add_then_remove_same_id_restores_length() {
    let mut h = CaptureHistory::new();
    h.add(item("a", "one.png"));
    h.add(item("b", "two.png"));
    let before = h.items.len();
    h.add(item("c", "three.png"));
    let removed = h.remove("c");
    assert!(removed);
    assert_eq!(h.items.len(), before);
    assert_eq!(h.items[0].id, "a");
    assert_eq!(h.items[1].id, "b");
}

#[test]
fn remove_missing_id_reports_false_and_keeps_items() {
    let mut h = CaptureHistory::new();
    h.add(item("a", "one.png"));
    assert!(!h.remove("zzz"));
    assert_eq!(h.items.len(), 1);
    assert_eq!(h.items[0].id, "a");
}

#[test]
fn toggle_favorite_flips_only_the_matching_item() {
    let mut h = CaptureHistory::new();
    h.add(item("a", "one.png"));
    h.add(item("b", "two.png"));
    assert!(h.toggle_favorite("b"));
    assert!(!h.items[0].is_favorite);
    assert!(h.items[1].is_favorite);
    assert!(h.toggle_favorite("b"));
    assert!(!h.items[1].is_favorite);
}

#[test]
fn toggle_favorite_on_missing_id_mutates_nothing() {
    let mut h = CaptureHistory::new();
    h.add(item("a", "one.png"));
    let before_len = h.items.len();
    assert!(!h.toggle_favorite("zzz"));
    assert_eq!(h.items.len(), before_len);
    assert_eq!(h.items[0].id, "a");
    assert!(!h.items[0].is_favorite);
}

#[test]
fn filename_of_finds_first_match() {
    let mut h = CaptureHistory::new();
    h.add(item("a", "one.png"));
    h.add(item("b", "two.png"));
    assert_eq!(h.filename_of("b").as_deref(), Some("two.png"));
    assert!(h.filename_of("zzz").is_none());
}

#[test]
fn new_screenshot_has_fresh_id_and_defaults() {
    let it = CaptureItem::new_screenshot("shot.png".to_string());
    assert!(matches!(it.capture_type, CaptureType::Screenshot));
    assert_eq!(it.filename, "shot.png");
    assert!(!it.is_favorite);
    assert_eq!(it.id.len(), 36);
    assert!(!it.created_at.is_empty());
}

#[test]
fn new_recording_ids_differ_between_calls() {
    let a = CaptureItem::new_recording("a.mp4".to_string());
    let b = CaptureItem::new_recording("b.mp4".to_string());
    assert!(matches!(a.capture_type, CaptureType::Recording));
    assert_ne!(a.id, b.id);
}

#[test]
fn filename_renders_prefix_timestamp_and_extension() {
    let t = Timestamp { year: 2024, month: 1, day: 2, hour: 3, minute: 4, second: 5 };
    assert_eq!(
        filename_for(&CaptureType::Screenshot, &t, "png"),
        "Screenshot 2024-01-02 at 03.04.05.png"
    );
    assert_eq!(
        filename_for(&CaptureType::Recording, &t, "mp4"),
        "Recording 2024-01-02 at 03.04.05.mp4"
    );
    assert_eq!(filename_for(&CaptureType::Gif, &t, "gif"), "GIF 2024-01-02 at 03.04.05.gif");
}

#[test]
fn filename_is_deterministic_within_one_second() {
    // The documented collision case: two captures of one kind in the same
    // second produce the same name.
    let t = Timestamp { year: 2025, month: 12, day: 31, hour: 23, minute: 59, second: 59 };
    let a = filename_for(&CaptureType::Screenshot, &t, "png");
    let b = filename_for(&CaptureType::Screenshot, &t, "png");
    assert_eq!(a, b);
    assert_eq!(a, "Screenshot 2025-12-31 at 23.59.59.png");
}

#[test]
fn generate_filename_has_the_documented_shape() {
    let m = StorageManager::new();
    let name = m.generate_filename(&CaptureType::Screenshot, "png");
    // "Screenshot " + "YYYY-MM-DD at HH.MM.SS" + ".png"
    assert!(name.starts_with("Screenshot "));
    assert!(name.ends_with(".png"));
    assert_eq!(name.len(), "Screenshot ".len() + 22 + ".png".len());
    let stamp = &name["Screenshot ".len()..name.len() - ".png".len()];
    assert_eq!(&stamp[4..5], "-");
    assert_eq!(&stamp[7..8], "-");
    assert_eq!(&stamp[10..14], " at ");
    assert_eq!(&stamp[16..17], ".");
    assert_eq!(&stamp[19..20], ".");
}

#[test]
fn manager_starts_empty_with_default_location() {
    let m = StorageManager::new();
    assert!(m.history.items.is_empty());
    assert!(matches!(m.location, StorageLocation::Default));
}

#[test]
fn screenshots_dir_follows_the_location() {
    let mut m = StorageManager::new();
    assert_eq!(
        m.screenshots_dir("/data", "/desk"),
        "/data/ScreenCapture/Screenshots"
    );
    m.set_location(StorageLocation::Desktop);
    assert_eq!(m.screenshots_dir("/data", "/desk"), "/desk");
    m.set_location(StorageLocation::Custom { path: "/tmp/shots".to_string() });
    assert_eq!(m.screenshots_dir("/data", "/desk"), "/tmp/shots");
}

#[test]
fn storage_info_counts_and_sums() {
    let m = StorageManager::new();
    let info = m.compute_storage_info("/p".to_string(), &vec![10, 20, 30]);
    assert_eq!(info.path, "/p");
    assert_eq!(info.total_items, 3);
    assert_eq!(info.total_size_bytes, 60);
    assert!(matches!(info.location, StorageLocation::Default));
}

#[test]
fn storage_info_of_missing_directory_reads_zero() {
    let m = StorageManager::new();
    let info = m.compute_storage_info("/absent".to_string(), &vec![]);
    assert_eq!(info.total_items, 0);
    assert_eq!(info.total_size_bytes, 0);
}

#[test]
fn storage_info_saturates_on_overflow() {
    let m = StorageManager::new();
    let info = m.compute_storage_info("/p".to_string(), &vec![u64::MAX, 5, 7]);
    assert_eq!(info.total_items, 3);
    assert_eq!(info.total_size_bytes, u64::MAX);
}
