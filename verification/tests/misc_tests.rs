use screencap::config::{QualityPreset, RecordingConfig};
use screencap::error::CaptureError;
use screencap::permissions::{status_from_av_code, status_from_preflight, PermissionStatus};
use screencap::shortcuts::{shortcut_bindings, ShortcutMode};
use screencap::tray::{menu_action, TrayAction};

#[test]
fn quality_presets_map_to_caps_and_bitrates() {
    assert_eq!(QualityPreset::Low.max_height(), 720);
    assert_eq!(QualityPreset::Medium.max_height(), 1080);
    assert_eq!(QualityPreset::High.max_height(), u32::MAX);
    assert_eq!(QualityPreset::Low.bitrate(), 5_000_000);
    assert_eq!(QualityPreset::Medium.bitrate(), 8_000_000);
    assert_eq!(QualityPreset::High.bitrate(), 12_000_000);
}

#[test]
fn default_recording_config() {
    let c = RecordingConfig::default();
    assert_eq!(c.quality, QualityPreset::High);
    assert_eq!(c.fps, 60);
    assert!(c.include_cursor);
    assert!(c.show_mouse_clicks);
    assert!(!c.include_microphone);
    assert!(c.include_system_audio);
    assert!(c.exclude_app_audio);
}

#[test]
fn error_messages_name_their_kind() {
    assert_eq!(
        CaptureError::CaptureFailed("no data".to_string()).message(),
        "Screen capture failed: no data"
    );
    assert_eq!(
        CaptureError::RecordingFailed("boom".to_string()).message(),
        "Recording failed: boom"
    );
    assert_eq!(CaptureError::RecordingNotActive.message(), "Recording not active");
    assert_eq!(CaptureError::StorageError("disk".to_string()).message(), "Storage error: disk");
    assert_eq!(CaptureError::OcrFailed("eye".to_string()).message(), "OCR failed: eye");
    assert_eq!(
        CaptureError::PermissionDenied("mic".to_string()).message(),
        "Permission denied: mic"
    );
    assert_eq!(
        CaptureError::InvalidConfig("fps".to_string()).message(),
        "Invalid configuration: fps"
    );
    assert_eq!(CaptureError::Io("pipe".to_string()).message(), "IO error: pipe");
    assert_eq!(CaptureError::Json("comma".to_string()).message(), "JSON error: comma");
    assert_eq!(CaptureError::Image("codec".to_string()).message(), "Image error: codec");
}

#[test]
fn av_codes_map_to_statuses() {
    assert_eq!(status_from_av_code(0), PermissionStatus::NotDetermined);
    assert_eq!(status_from_av_code(1), PermissionStatus::Restricted);
    assert_eq!(status_from_av_code(2), PermissionStatus::Denied);
    assert_eq!(status_from_av_code(3), PermissionStatus::Authorized);
    assert_eq!(status_from_av_code(42), PermissionStatus::NotDetermined);
    assert_eq!(status_from_av_code(-1), PermissionStatus::NotDetermined);
}

#[test]
fn preflight_maps_to_authorized_or_denied() {
    assert_eq!(status_from_preflight(true), PermissionStatus::Authorized);
    assert_eq!(status_from_preflight(false), PermissionStatus::Denied);
}

#[test]
fn safe_mode_bindings_use_ctrl_shift() {
    let b = shortcut_bindings(&ShortcutMode::Safe);
    let got: Vec<(&str, &str)> = b.iter().map(|(k, a)| (k.as_str(), a.as_str())).collect();
    assert_eq!(
        got,
        vec![
            ("ctrl+shift+3", "capture_fullscreen"),
            ("ctrl+shift+4", "capture_area"),
            ("ctrl+shift+5", "capture_window"),
            ("ctrl+shift+7", "record_area"),
            ("ctrl+shift+9", "record_fullscreen"),
        ]
    );
}

#[test]
fn native_mode_bindings_use_super_shift() {
    let b = shortcut_bindings(&ShortcutMode::Native);
    assert_eq!(b[0].0, "super+shift+3");
    assert_eq!(b[4].0, "super+shift+9");
    assert_eq!(b.len(), 5);
}

#[test]
fn menu_ids_map_to_actions() {
    assert_eq!(menu_action("quit"), TrayAction::Quit);
    assert_eq!(menu_action("preferences"), TrayAction::Preferences);
    assert_eq!(menu_action("open_folder"), TrayAction::OpenFolder);
    assert_eq!(menu_action("capture_fullscreen"), TrayAction::CaptureFullscreen);
    assert_eq!(menu_action("capture_area"), TrayAction::CaptureArea);
    assert_eq!(menu_action("capture_window"), TrayAction::CaptureWindow);
    assert_eq!(menu_action("something_else"), TrayAction::Ignored);
    assert_eq!(menu_action(""), TrayAction::Ignored);
}
