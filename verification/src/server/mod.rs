//! The decisions and answer shapes of the HTTP endpoints.
pub mod assets;
pub mod conversations;
pub mod error;
pub mod messages;
pub mod personas;
pub mod settings;
pub mod streaming;
pub mod summary;
pub mod summary_trigger;
