//! Host identity and source-tree classification.

pub mod dependencies;
pub mod platform;
pub mod windows;
