//! Core of a schema-driven control/property marshalling stack for a camera
//! runtime: a schema compiler that turns versioned schema documents into typed
//! per-control definitions, a build-time version resolver that picks the one
//! compiled snapshot compatible with the linked runtime, and the runtime
//! tagged-value codec with its dynamic lookup registry.

pub mod camera;
pub mod codegen;
pub mod control;
pub mod control_value;
pub mod controls;
pub mod geometry;
pub mod ident;
pub mod loader;
pub mod logging;
pub mod meta;
pub mod pixel_format;
pub mod properties;
pub mod request;
pub mod stream;
pub mod strutil;
pub mod utils;
pub mod version;
pub mod yaml;
