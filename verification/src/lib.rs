//! Operator console core for a blockchain validator node.
//!
//! The library holds the verified heart of the console: the lifecycle
//! supervisor that starts and stops the validator process, the bounded log
//! buffer with escape-sequence sanitization, the catchup-status classifier,
//! and the script/probe helpers that read configuration out of the launch
//! script. Process spawning, file access and terminal drawing live outside
//! the library and talk to it through plain values, events and actions.

pub mod app;
pub mod catchup;
pub mod events;
pub mod lines;
pub mod log_buffer;
pub mod models;
pub mod probe;
pub mod quit;
pub mod sanitize;
pub mod script;
pub mod supervisor;
pub mod tailer;
pub mod text;
pub mod wallets;
