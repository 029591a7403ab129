pub mod arguments;
pub mod dynamic_manager;
pub mod metadata;
pub mod settings;
pub use settings::{Config, DeviceConfig};
