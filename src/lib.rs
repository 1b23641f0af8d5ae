//! Scheduled delivery of chat messages with a single live quiz.
//!
//! The library holds the decisions of the bot: which scheduled items are due,
//! how an item becomes an outgoing message, how an inbound message is judged
//! against the running quiz, and how the completion ledger is kept.
pub mod bot_config;
pub mod delivery;
pub mod dispatch;
pub mod ledger;
pub mod matcher;
pub mod poll;
pub mod quiz;
pub mod resolver;
pub mod schedule;
pub mod text;
pub mod time;
