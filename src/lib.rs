//! Account maintenance for a hosted source-control platform: listing the
//! repositories an account owns and deleting all of them, or a chosen subset,
//! behind explicit confirmation phrases.
//!
//! The library holds the decisions; the network calls, prompts and pacing
//! sleeps are performed by the caller, which hands the results back in.

pub mod client;
pub mod gui;
pub mod models;
pub mod operations;
pub mod selection;
pub mod text;
pub mod workflow;
