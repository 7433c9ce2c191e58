//! Update-manifest logic for a Tauri updater backend that serves GitHub
//! releases: release selection, asset matching, manifest building, and the
//! decisions taken around each call to the GitHub API.

pub mod config;
pub mod text;
pub mod version;
pub mod error;
pub mod github;
pub mod manifest;
pub mod handlers;
