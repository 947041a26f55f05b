//! Lifecycle management for a small fleet of single-host service stacks.
//!
//! A stack is a pair of containers (a game server and its file-transfer
//! companion) described by a compose manifest and a rendered configuration
//! file under `stack_<id>/`. The crate holds the decisions only: identifier
//! and port allocation, templating, the step-by-step protocols for creating,
//! starting, stopping and deleting stacks, and the merging of declared stacks
//! with what the container runtime reports. Touching the filesystem and the
//! runtime is left to the caller, which performs the effects the protocols ask
//! for and reports back what happened.

pub mod errors;
pub mod lifecycle;
pub mod model;
pub mod registry;
pub mod runtime;
pub mod scripts;
pub mod status;
pub mod template;
pub mod text;
pub mod website;
