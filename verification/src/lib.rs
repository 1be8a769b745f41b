//! A bot that takes commands from the comments of a repository: it verifies and reads the
//! webhook requests of the hosting platform, turns the comments that address it into
//! commands, and decides under its rules of politeness and of the whitelist what to reply.
//!
//! The library computes and decides; reading requests, keeping files and sending replies are
//! left to the program around it.

pub mod commands;
pub mod config;
pub mod json;
pub mod logger;
pub mod numerals;
pub mod setup;
pub mod signature;
pub mod text;
pub mod webhooks;
