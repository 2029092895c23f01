//! Provisions and reconfigures a local test cluster of keepers and of the
//! servers that depend on them.
//!
//! The library keeps the membership of the cluster, computes the
//! configuration of every node from it, and lists the steps of each change
//! of membership in the order in which they have to be taken. It touches no
//! file and starts no process: that is left to the caller.

pub mod config;
pub mod deployment;
pub mod ids;
pub mod lifecycle;
pub mod metadata;
pub mod paths;
pub mod plan;
pub mod ports;
pub mod projection;
pub mod templates;
pub mod text;

pub use deployment::{
    ConfigFile, Deployment, DeploymentConfig, CLICKWARD_META_FILENAME, DEPLOYMENT_DIR,
};
pub use lifecycle::{Command, DirEntry};
pub use metadata::{ClickwardMetadata, Error, NodeKind};
pub use plan::Step;
pub use ports::{BasePorts, Service};
