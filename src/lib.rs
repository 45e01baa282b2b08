//! HTML shell generation for single-page applications built with Vite.
//!
//! The library resolves entries of a Vite build manifest, derives a version
//! token from the manifest bytes, and assembles the HTML document (or the
//! context of a Tera template) into which the client application mounts.
pub mod config;
pub mod development;
pub mod digest;
pub mod json;
pub mod manifest;
pub mod markup;
pub mod production;
pub mod template;
