//! Colour gradient editing: the integer and byte-level logic of a colour
//! picker with spline control points, presets and clipboard export.
pub mod app_state;
pub mod clipboard;
pub mod color;
pub mod color_picker;
pub mod common;
pub mod content_windows;
pub mod control_point;
pub mod curves;
pub mod error;
pub mod frame_read;
pub mod image_processing;
pub mod math;
pub mod preset;
pub mod previewer;
pub mod text;
