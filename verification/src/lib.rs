//! tapedeck: scripted media recording — the verified core.

pub mod parser;
pub mod script;
pub mod text;
pub mod fspath;
pub mod paths;
pub mod dispatcher;
pub mod timeline;
pub mod scan;
pub mod probe;
pub mod ffmpeg;
pub mod optimize;
pub mod filmstrip;
pub mod compositor;
pub mod umbriel;
pub mod keys;
pub mod input;
pub mod mcp;
pub mod db;
pub mod doctor;
pub mod reroll;
pub mod native;
pub mod config;
pub mod cli;
pub mod tui;
