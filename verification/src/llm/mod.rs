//! Talking to the model: prompts, placeholders and the Ollama wire formats.
pub mod ollama;
pub mod placeholders;
pub mod prompt;
