//! What the bot's commands work on.

pub mod general;
