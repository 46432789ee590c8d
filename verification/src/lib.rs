//! Resolution of a worker project manifest: a top-level configuration with
//! named environment overlays is resolved, for one environment at a time,
//! into a build target and a deployment configuration.

pub mod text;
pub mod target_type;
pub mod kv_namespace;
pub mod site;
pub mod deploy_config;
pub mod pairs;
pub mod environment;
pub mod environments;
pub mod target;
pub mod error;
pub mod value;
pub mod manifest;
pub mod uniqueness;
pub mod document;
pub mod writer;
pub mod reader;

pub mod scaffold;
pub mod laws;
pub mod round_trip;
