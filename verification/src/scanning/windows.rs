//! Windows-specific parts of the host identity.

pub mod release_id;
pub mod version;
