//! Verified state and view-model logic of a small GPUI reading-app shell and
//! of two side-by-side counter panels.

pub mod theme;
pub mod my_theme;
pub mod layout;
pub mod app;
pub mod my_app;
pub mod frame_meter;
pub mod native_counter;
pub mod component_counter;
