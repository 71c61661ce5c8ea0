//! Client configuration.

pub mod environment;
pub mod keys;
pub mod kinds;
pub mod laws;
pub mod loading;
pub mod name_laws;
pub mod properties;
pub mod refresher;
pub mod setting_laws;
pub mod settings;
pub mod source_laws;
pub mod values;

pub use environment::config_file_candidates;
pub use environment::discover_config_file;
pub use kinds::CacheEvictorType;
pub use kinds::WriteType;
pub use properties::ConfigLoadError;
pub use properties::PropertiesMap;
pub use refresher::ConfigRefresher;
pub use refresher::TransparentAccelerationSwitch;
pub use settings::GoosefsConfig;
pub use values::parse_byte_size;
pub use values::TextMap;
