//! Capture and recording configuration types.
//!
//! Area coordinates are held as integer pixel values; the platform layer
//! converts them to its native geometry when it issues the capture call.

use vstd::prelude::*;

verus! {

/// Recording quality preset; the sole source of the resolution cap and bitrate.
#[derive(Clone, Copy, Debug, PartialEq, Eq, Structural)]
pub enum QualityPreset {
    Low,
    Medium,
    High,
}

impl QualityPreset {
    /// Resolution cap: output frames are scaled so their height does not
    /// exceed this many pixels. `High` keeps the native resolution.
    pub fn max_height(&self) -> (h: u32)
        ensures
            *self is Low ==> h == 720,
            *self is Medium ==> h == 1080,
            *self is High ==> h == u32::MAX,
    {
        match self {
            QualityPreset::Low => 720,
            QualityPreset::Medium => 1080,
            QualityPreset::High => u32::MAX,
        }
    }

    /// Target video bitrate in bits per second.
    pub fn bitrate(&self) -> (b: u32)
        ensures
            *self is Low ==> b == 5_000_000,
            *self is Medium ==> b == 8_000_000,
            *self is High ==> b == 12_000_000,
    {
        match self {
            QualityPreset::Low => 5_000_000,
            QualityPreset::Medium => 8_000_000,
            QualityPreset::High => 12_000_000,
        }
    }
}

/// Requested container format for a still capture.
///
/// JPEG quality is an integer percentage 0..=100, already clamped and scaled
/// from whatever unit the caller's interface uses.
#[derive(Clone, Copy, Debug, PartialEq, Eq, Structural)]
pub enum ImageFormat {
    Png,
    Jpeg { quality: u8 },
    Tiff,
}

/// A rectangular region of a display, in pixels.
#[derive(Clone, Copy, Debug, PartialEq, Eq, Structural)]
pub struct CaptureRect {
    pub x: i64,
    pub y: i64,
    pub width: i64,
    pub height: i64,
}

/// What a recording session captures.
#[derive(Clone, Copy, Debug, PartialEq, Eq, Structural)]
pub enum RecordingTarget {
    Fullscreen { display_id: Option<u32> },
    Area { x: i64, y: i64, width: i64, height: i64, display_id: u32 },
    Window { window_id: u32 },
}

/// Parameters of a recording session.
#[derive(Clone, Copy, Debug, PartialEq, Eq, Structural)]
pub struct RecordingConfig {
    pub quality: QualityPreset,
    pub fps: u32,
    pub include_cursor: bool,
    pub show_mouse_clicks: bool,
    pub include_microphone: bool,
    pub include_system_audio: bool,
    pub exclude_app_audio: bool,
}

impl Default for RecordingConfig {
    /// The default session: native quality, 60 fps, cursor and clicks shown,
    /// system audio in, microphone and the app's own audio out.
    fn default() -> (c: RecordingConfig)
        ensures
            c.quality is High,
            c.fps == 60,
            c.include_cursor,
            c.show_mouse_clicks,
            !c.include_microphone,
            c.include_system_audio,
            c.exclude_app_audio,
    {
        RecordingConfig {
            quality: QualityPreset::High,
            fps: 60,
            include_cursor: true,
            show_mouse_clicks: true,
            include_microphone: false,
            include_system_audio: true,
            exclude_app_audio: true,
        }
    }
}

/// One enumerated window, as the platform reports it.
#[derive(Clone, Debug)]
pub struct WindowInfo {
    pub id: u32,
    pub title: String,
    pub app_name: String,
    pub width: u32,
    pub height: u32,
}

/// Handle through which displays and windows are enumerated. Enumeration
/// itself talks to the platform and lives with the platform layer.
pub struct ContentProvider;

impl ContentProvider {
    pub fn new() -> ContentProvider {
        ContentProvider
    }
}

} // verus!
