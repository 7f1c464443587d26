//! A verified model of the native build pipeline that turns a feature
//! configuration into generator arguments, drives the two external build
//! tools, and collects the compiled artifacts, together with small data
//! models of the drawing API surface that the built library exposes.

pub mod arguments;
pub mod binaries;
pub mod capability;
pub mod config;
pub mod drivers;
pub mod effects;
pub mod errors;
pub mod executor;
pub mod pipeline;
pub mod platform;
pub mod source;
pub mod svg;
pub mod text;
