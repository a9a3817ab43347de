//! A manifest-driven application updater: the manifest model, its format
//! adapters, and the planning and execution rules of a file sync.

pub mod config;
pub mod file_sync;
pub mod manifest;
pub mod text;
