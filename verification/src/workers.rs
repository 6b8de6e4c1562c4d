//! The workers that run for each user.
pub mod asset_info;
pub mod discovery;
pub mod discovery_laws;
pub mod discovery_run_laws;
pub mod upload_laws;
pub mod upload_model;
pub mod upload_run_laws;
pub mod uploader;
