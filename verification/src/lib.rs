//! Core logic of the SnapDown video downloader: platform detection, request
//! validation, the task store, and the handling of messages that come back
//! from the download engine. Everything here is verified with Verus; the
//! desktop shell (windows, dialogs, files, processes) lives outside.

pub mod text;
pub mod stamps;
pub mod models;
pub mod platform;
pub mod line;
pub mod store;
pub mod engine;
pub mod commands;
pub mod running;
pub mod laws;
