//! Verified core of a remote code-execution service.
//!
//! Clients submit untrusted source code; the service builds a locked-down
//! container image, runs the code in an isolated container and streams back
//! structured events. This crate holds the rules of that service and proves
//! them: which requests are taken, what the sandbox of a container is, what
//! a pipeline asks of the container engine at each step and what it tells
//! the client, how function metadata changes, and what the reconciler
//! removes. Talking to the engine, to the metadata store and to clients is
//! left to the caller, which performs the actions that the pipelines return
//! and reports back what happened.

pub mod text;
pub mod constants;
pub mod models;
pub mod errors;

pub mod validators;
pub mod paths;
pub mod validation;

pub mod sandbox;
pub mod engine;
pub mod messages;
pub mod pipeline;
pub mod executor;
pub mod functions;

pub mod template;
pub mod registry;
pub mod runner;
pub mod store;
pub mod reconciler;

pub mod api;
pub mod auth;
pub mod input;
pub mod config;
