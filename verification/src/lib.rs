//! A user-mode scanner for foreign handles into a target process and for
//! overlay-style windows, with the data model, filtering pipeline, overlay
//! criteria and report rendering verified.

pub mod anticheat;
pub mod handle;
pub mod handle_context;
pub mod handle_info;
pub mod handle_manager;
pub mod overlay_finder;
pub mod overlay_finder_params;
pub mod process;
pub mod text;
pub mod uploading;
pub mod window_info;
