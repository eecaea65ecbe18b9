//! The launcher: it starts the local server, follows its start, and opens it.
pub mod arguments;
pub mod health;
pub mod model;
pub mod network;
pub mod owner;
pub mod ports;
pub mod preferences;
pub mod process;
pub mod setup;
pub mod worker;
