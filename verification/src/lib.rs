//! Decisions and data of a small yt-dlp front end: where the helper tools live,
//! which archives they come in, how the user's answers at the prompts are read,
//! and the command line handed to yt-dlp.

pub mod text;
pub mod config;
pub mod repl;
pub mod utility;
pub mod network;
