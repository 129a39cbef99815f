//! Registry administration for a permissioned multi-party network: node
//! records, the local registry file, the remote registry protocol, and the
//! workflows that keep both up to date.

pub mod add;
pub mod client;
pub mod error;
pub mod generate;
pub mod metadata;
pub mod node;
pub mod oauth;
pub mod profile;
pub mod rbac;
pub mod registry_file;
pub mod text;
pub mod workflow;
