//! A WebAssembly host runtime: compiles modules, caches precompiled
//! artifacts behind an engine-fingerprint check, runs them in isolated
//! stores under fuel metering and interruption, and invokes exported
//! functions with type-checked argument marshalling.

pub mod artifact;
pub mod config;
pub mod engine;
pub mod errors;
pub mod module;
pub mod outside;
pub mod store;
pub mod value;
