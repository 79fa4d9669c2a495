//! Resolution of `owner/model:tag` references to the artifact files of a
//! model registry, and the decisions of a resumable cache synchronisation.
//!
//! The library holds no I/O. It computes names, addresses and requests, and
//! decides from the answers it is handed what has to happen next.

pub mod cache;
pub mod decimal;
pub mod download;
pub mod endpoint;
pub mod env;
pub mod error;
pub mod http;
pub mod manifest;
pub mod model_ref;
pub mod shards;
pub mod text;
pub mod transfer;
