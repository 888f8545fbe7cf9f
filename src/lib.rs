//! Assembly of an embedded-Linux build environment: validation of the
//! optional feature set, synchronisation decisions for declared layer
//! repositories, layer path resolution and rendering of the build tool's
//! configuration files.

pub mod text;
pub mod error;
pub mod yaml;
pub mod tls;
pub mod libc;
pub mod curl;
pub mod features;
pub mod config;
pub mod repo;
pub mod sync;
pub mod render;
pub mod credentials;
pub mod scan;
