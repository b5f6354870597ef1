//! The decision logic of a Telegram expense-tracking bot, with its contracts proved.
//!
//! - `text`: character-level string work (white space, trimming, replacement, comparison).
//! - `number`: reading and writing decimal `i64` values.
//! - `utils`: the bot's user-facing texts in Indonesian and English.
//! - `model`: turning a message into the language model's input.
//! - `parser`: reading an expense (amount, description, labels) out of a message.
//! - `calendar`: where report periods start.
//! - `handlers`: what the bot does about commands, messages and button presses.

pub mod text;
pub mod number;
pub mod utils;
pub mod parser;
pub mod calendar;
pub mod model;
pub mod handlers;
