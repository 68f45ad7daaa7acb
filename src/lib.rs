//! Persistence of the application's configuration: the settings and
//! conversations model, its JSON document form with a checked encoder and
//! decoder, and the in-memory copy of the last configuration loaded.
pub mod codec;
pub mod config;
pub mod error;
pub mod json;
pub mod state;

pub use codec::{config_from_json, config_to_json};
pub use config::{default_config, Config, Conversation, Settings};
pub use error::ConfigError;
pub use json::Json;
pub use state::{default_config_document, ConfigState, CONFIG_FILE_PATH};
