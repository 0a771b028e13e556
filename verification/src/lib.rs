//! Huginn: a pluggable network reconnaissance engine.
//!
//! The crate provides the orchestration core of a scanner: a probe contract
//! (`plugins::Plugin`), a dispatch engine that walks the target x probe-type
//! matrix with partial-failure tolerance (`scanner::Scanner`), an immutable
//! result model (`plugins::ScanResult`), and interchangeable output renderers
//! (`formatters`). Configuration merging and validation live in `config`,
//! secret masking and permission checks in `security`.

pub mod config;
pub mod formatters;
pub mod plugins;
pub mod scanner;
pub mod security;
pub mod strutil;
