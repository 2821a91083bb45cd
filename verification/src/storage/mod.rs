//! What the application keeps in its SQLite database, as plain values.
pub mod config;
pub mod config_keys;
pub mod download;
pub mod error;
pub mod lifecycle;
pub mod location;

pub use location::{database_path_next_to_executable, DATABASE_FILE_NAME};
