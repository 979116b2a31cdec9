//! The terminal application: its state, what keys and commands do to it, and what it shows.
//!
//! Everything the application decides is here. Drawing, reading keys, talking to motors and
//! keeping the configuration on disk are left to whoever runs it: a key press or a command
//! returns what is to be done, and the outcome is handed back.

pub mod commands;
pub mod config;
pub mod fields;
pub mod keys;
pub mod laws;
pub mod outcomes;
pub mod session;
pub mod state;
pub mod view;
