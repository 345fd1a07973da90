//! An ephemeral file drop: the registry of live blobs, and the decisions of the
//! gateway that uploads and downloads them.

pub mod config;
pub mod decimal;
pub mod download;
pub mod entry;
pub mod error;
pub mod laws;
pub mod model;
pub mod page;
pub mod platform;
pub mod registry;
pub mod text;
pub mod upload;
