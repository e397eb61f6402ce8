//! SlippyBot: a small Slack bot that answers a handful of phrases, keeps a
//! periodic "joy" announcement going, and offers help on what it understands.
//!
//! The decisions the bot makes live here and are verified; sending and
//! receiving messages, reading files and the clock loop live in the program
//! that drives this library.

pub mod time;
pub mod pattern;
pub mod schedule;
pub mod chance;
pub mod text;
pub mod brain;
pub mod commands;
pub mod handler;
pub mod config;
