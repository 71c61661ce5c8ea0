//! GooseFS client SDK.

pub mod auth;
pub mod buffer;
pub mod clock;
pub mod config;
pub mod context;
pub mod context_laws;
pub mod error;
pub mod error_laws;
pub mod file_info_cache;
pub mod fs;
pub mod io;
pub mod metrics;
pub mod proto;
pub mod text;
pub mod text_laws;

pub use vstd::hash_map::StringHashMap;
