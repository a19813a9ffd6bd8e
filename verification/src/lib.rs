//! Model management for the Yuuki command-line tool: name resolution, the
//! local store's layout, download bookkeeping and runtime dispatch, stated as
//! contracts over plain values.

pub mod cli;
pub mod commands;
pub mod config;
pub mod dispatch;
pub mod error;
pub mod platform;
pub mod registry;
pub mod size;
pub mod store;
pub mod text;
