//! Decoration of directory entries for a listing tool: per-entry metadata
//! accessors, permission renderings, symlink-target resolution, memoized
//! user/group identity lookups, and a two-tier version-control status code.
//!
//! Every renderable value is a plain string in a minimal markup notation,
//! `<style>value</style>`, consumed by an external rendering layer.

pub mod config;
pub mod detail;
pub mod enums;
pub mod fmt;
pub mod gitx;
pub mod node;
pub mod owner;
pub mod perm;
pub mod pls;
pub mod sym;
pub mod timestamp;
