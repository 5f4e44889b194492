//! A workspace manager for terminal-multiplexer sessions: rules that tell
//! which directories are workspaces, names for their sessions, and the
//! commands that initialise a new session.

pub mod cli;
pub mod config;
pub mod handler;
pub mod layout;
pub mod matches;
pub mod session;
pub mod settings;
pub mod text;
pub mod tmux;
pub mod ui;
pub mod workspace;
