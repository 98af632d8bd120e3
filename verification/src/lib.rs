//! A verified boundary for compiling and evaluating small expression scripts.
//!
//! A host hands this library UTF-8 script text and, optionally, a JSON-encoded
//! context object.  The library compiles the script with the rhai interpreter
//! (extended with randomness, filesystem, URL and scientific capability
//! modules), evaluates it, and hands back either a JSON-encoded result or an
//! error message, wrapped in a tagged two-variant [`outcome::Outcome`].
//!
//! The interpreter itself is an external collaborator reached through a small
//! set of trusted wrappers; everything around it — the null/empty policies,
//! the routing of every failure into the error variant, and the lifecycle of
//! compiled programs — is verified.

pub mod codec;
pub mod engine;
pub mod outcome;
pub mod pipeline;
