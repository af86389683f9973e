//! Retrieval pipeline for a remote media-hosting service: token acquisition,
//! cursor-paginated listing and bulk download, as verified decision logic.

pub mod configuration;
pub mod download_client;
pub mod gfycat_client;
pub mod http;
pub mod json;
pub mod listing;
pub mod metadata;
pub mod pipeline;
pub mod text;
