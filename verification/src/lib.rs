//! Tauri webview runtime backed by Servo.
use vstd::prelude::*;

pub mod address;
pub mod builder;
pub mod cursor;
pub mod encoding;
pub mod engine;
pub mod error;
pub mod geometry;
pub mod ipc;
pub mod jsvalue;
pub mod json;
pub mod message;
pub mod platform;
pub mod table;
pub mod webview;
pub mod webview_dispatch;
pub mod window;
pub mod window_dispatch;

verus! {

/// Marker for the Servo-backed runtime.
#[derive(Debug, Clone, Copy, PartialEq, Eq, Structural)]
pub struct ServoRuntime;

} // verus!
