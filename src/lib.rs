//! An interactive terminal core: runs command lines in a shell, optionally
//! routes them through an outside command-augmentation service first, and
//! keeps the command history and the output log that a front end draws.

pub mod assist;
pub mod bridge;
pub mod cache;
pub mod command;
pub mod config;
pub mod history;
pub mod laws;
pub mod numtext;
pub mod plugins;
pub mod records;
pub mod status;
pub mod terminal;
pub mod text;
pub mod themes;
pub mod ui;
