//! The verified core of Animus, a local role-play chat server: personas and their
//! Character Card import, prompt assembly for an Ollama model, how values are stored,
//! and the decisions behind each HTTP endpoint.
pub mod db;
pub mod domain;
pub mod ids;
pub mod llm;
pub mod server;
pub mod text;
