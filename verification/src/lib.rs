//! The broker behind terminal menus.
pub mod activation;
pub mod broker;
pub mod cleanup;
pub mod client;
pub mod command;
pub mod condition;
pub mod config;
pub mod connection;
pub mod digest;
pub mod execution;
pub mod gate;
pub mod host;
pub mod ids;
pub mod menu;
pub mod path;
pub mod protocol;
pub mod runtime;
pub mod server;
pub mod spawn;
pub mod table;
pub mod text;
pub mod textmap;
pub mod time;
pub mod wire;
