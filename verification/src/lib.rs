//! A shell for AI coding agents: core types, configuration, agent registry,
//! task scheduler, event bus, isolated "band" environments, SSH command
//! building, the JSON-RPC routing of adapters and the TUI state machine.

pub mod mcp;
pub mod outside;
pub mod registry;
pub mod scheduler;
pub mod ssh;
pub mod store;
pub mod adapter;
pub mod band;
pub mod cli;
pub mod config;
pub mod daemon;
pub mod event;
pub mod text;
pub mod tui;
pub mod types;
