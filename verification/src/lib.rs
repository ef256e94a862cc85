pub mod config_builder;
pub mod config_setting;
pub mod error;
pub mod flat_pool;
pub mod flat_value;
pub mod model;
pub mod pool;
pub mod setting_pool;

pub use config_builder::ConfigBuilder;
pub use error::{ConfigError, ConfigErrorView};
pub use flat_value::{FlatValue, TryUnwrap};
pub use model::{Kind, Scalar, Settings};
