//! A chat responder: it watches message text for "disable" and "trigger"
//! phrases, keeps a cooldown during which it stays quiet, and answers a
//! triggering message, with a configured chance, by one line of lore.
pub mod text;
pub mod error;
pub mod matcher;
pub mod clock;
pub mod corpus;
pub mod config;
pub mod engine;
