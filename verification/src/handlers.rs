//! The decisions of the update and download endpoints, between the calls
//! to the GitHub API.

pub mod download;
pub mod update;
