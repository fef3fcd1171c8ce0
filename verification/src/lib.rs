//! Ponder: an encrypted journaling tool with local AI assistance.
//!
//! This crate holds the verified core of the tool: text chunking, prompt
//! construction, date logic for journal entries, configuration validation,
//! session state, command-line parsing and the error types.
pub mod util;
pub mod constants;
pub mod dates;
pub mod errors;
pub mod journal_core;
pub mod journal_logic;
pub mod journal_io;
pub mod config;
pub mod cli;
pub mod crypto;
pub mod db;
pub mod editor;
pub mod journal;
pub mod commands;
pub mod ai;
