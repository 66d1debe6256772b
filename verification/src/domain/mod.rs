//! The domain: personas, conversations, messages, summaries, ratings and settings.
pub mod character_card;
pub mod content_rating;
pub mod persona;
pub mod settings;
