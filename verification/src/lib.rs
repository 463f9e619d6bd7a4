//! Decision logic of a macOS application window.
//!
//! Every decision that a window takes between two messages to AppKit is a function here, from
//! plain values to plain values: what a key press does next, which mouse event the application
//! sees, how a drag is answered, where the traffic lights go, what opening a window consists of.
//! The host sends the messages and reports what came back.

pub mod callbacks;
pub mod classes;
pub mod cursor;
pub mod drag_bounds;
pub mod drag_payload;
pub mod drop_target;
pub mod external_drag;
pub mod external_paths;
pub mod file_paths;
pub mod frames;
pub mod fullscreen;
pub mod geometry;
pub mod keyboard;
pub mod layers;
pub mod opening;
pub mod pointer;
pub mod prompt;
pub mod rounding;
pub mod strings;
pub mod style;
pub mod tabs;
pub mod text_range;
pub mod titlebar;
pub mod traffic_light;
pub mod window;
