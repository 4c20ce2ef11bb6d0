//! Image acquisition, caching and sizing for a terminal chat client, together
//! with the state of the client and the plain data that its screens are built
//! from.
//!
//! The library decides and the caller waits: nothing here reads the disk, the
//! network or the keyboard. Every executable function carries a contract over
//! a mathematical model of its data and is verified against it. The calls
//! into the `image` and `ratatui-image` crates, and the few calls into the
//! standard library that have no specification of their own, stand behind
//! small wrappers whose contracts are stated, not proved; they are found in
//! `codec`, `protocol`, `clock`, `text` and `models::file`.

pub mod app;
pub mod clock;
pub mod codec;
pub mod config;
pub mod coordinator;
pub mod decimal;
pub mod discord;
pub mod disk_cache;
pub mod error;
pub mod health;
pub mod loader;
pub mod memory_cache;
pub mod models;
pub mod pixels;
pub mod protocol;
pub mod text;
pub mod transform;
pub mod ui;
