//! The file system: paths, their status, and the options of operations on them.

pub mod base_filesystem;
pub mod laws;
pub mod option_laws;
pub mod options;
pub mod uri_status;
pub mod write_type;
