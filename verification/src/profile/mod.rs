//! VPN profiles: the stored model, credentials, importing and storage paths.

pub mod auth;
pub mod import;
pub mod model;
pub mod storage;
