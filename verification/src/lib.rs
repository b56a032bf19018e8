//! Incremental execution of document preprocessing jobs.
//!
//! A job produces artifacts (downloaded files, command outputs) that must stay in
//! step with the source they were made from. This crate holds the decisions of
//! such a run: the persisted index of fingerprints, the verdict on each work item,
//! the bookkeeping of concurrently running items, and the phase-by-phase
//! progress of a whole job. All input and output is left to the caller.

pub mod args;
pub mod entry;
pub mod error;
pub mod manifest;
pub mod preprocessor;
pub mod query;
pub mod reporting;
pub mod shell;
pub mod text;
pub mod utils;
pub mod world;
pub mod web_resource;

pub use shell::ShellFactory;
pub use web_resource::WebResourceFactory;
