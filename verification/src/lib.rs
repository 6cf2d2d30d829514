//! Declarative environment-setup manifests, resolved against the identity of
//! the host machine.

pub mod cli;
pub mod install;
pub mod manifest;
pub mod resolver;
pub mod scanning;
pub mod text;
pub mod uri;
pub mod validation;

pub use cli::OffSetupCli;
pub use manifest::OffSetup;
