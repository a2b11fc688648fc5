//! A pattern-matching, middleware-driven file-tree transformation engine.
//!
//! The crate compiles glob and regex patterns into matchers, combines them
//! into ordered include/exclude sets, groups those sets per template
//! variable, composes transformation stages into a pipeline, and applies the
//! pipeline to an in-memory file tree.

pub mod config;
pub mod error;
pub mod file_system;
pub mod file_transform_middleware;
pub mod file_transform_pipe;
pub mod filter;
pub mod matcher;
pub mod matcher_group;
pub mod middleware_pipeline;
pub mod pattern;
pub mod paths;
pub mod repo;
pub mod strutil;
pub mod transform;
