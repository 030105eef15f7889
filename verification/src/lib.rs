//! Core of a screen-capture tool: pixel normalization into canonical RGBA,
//! image encoding, a recording-session state machine, and the capture-history
//! storage coordinator. Platform acquisition and disk persistence live outside
//! this crate; everything here is specified and verified.

pub mod capture;
pub mod config;
pub mod encoder;
pub mod error;
pub mod permissions;
pub mod pixel;
pub mod recording;
pub mod shortcuts;
pub mod storage;
pub mod timestamp;
pub mod tray;
