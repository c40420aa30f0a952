//! The rules of a small Discord community bot: a counting game, a one-word
//! story game, and the text of its slash commands. Everything here is a plain
//! computation on plain values; the gateway, the HTTP calls and the timers
//! live in the binary around it.

pub mod bot;
pub mod commands;
pub mod counting;
pub mod mention;
pub mod registry;
pub mod reply;
pub mod story;
pub mod text;
