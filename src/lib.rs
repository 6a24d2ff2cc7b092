//! Packaging pipelines: typed objects built from script values, file
//! manifests, tar archives and Debian packages, and the execution of named
//! pipelines step by step.
pub mod archive;
pub mod control;
pub mod deb;
pub mod debian;
pub mod error;
pub mod fileset;
pub mod manifest;
pub mod pipeline;
pub mod snap;
pub mod text;
pub mod value;
