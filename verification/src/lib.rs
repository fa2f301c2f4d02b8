//! Core library of a small HTTP API service: layered configuration
//! resolution (defaults, a config file, prefixed environment overrides,
//! direct secret overrides) with per-section validation, the uniform
//! response envelope, and the error taxonomy behind both.

pub mod config;
pub mod error;
pub mod loader;
pub mod not_found;
pub mod raw;
pub mod response;
pub mod strutil;
