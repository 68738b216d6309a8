//! Transport and session layer for a line-delimited JSON agent process.

pub mod commands;
pub mod config;
pub mod protocol;
pub mod session;
