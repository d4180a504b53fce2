//! Node agent library: configuration, wire messages, heartbeat and
//! connection decisions, service plans, sandbox and command policy.

pub mod text;
pub mod shell;
pub mod config;
pub mod json;
pub mod commands;
pub mod heartbeat;
pub mod connection;
pub mod service;
pub mod files;
pub mod git;
pub mod auth;
pub mod cli;
