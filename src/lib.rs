//! Serving an object store as a set of named, mutable channels over the
//! lockable tarball protocol: the channel registry, request resolution,
//! the authorization guard and the publish workflow.

pub mod auth;
pub mod channel;
pub mod cli;
pub mod error;
pub mod gateway;
pub mod loader;
pub mod pipeline;
pub mod publish;
pub mod registry;
pub mod snapshot;
pub mod text;
