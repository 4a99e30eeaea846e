//! Core logic of a terminal client for browsing game deals: the data model,
//! the message vocabulary, the state transition function, the decision rules
//! of the background-task orchestrator, and the pure parts of the remote
//! query gateway.

pub mod cache;
pub mod config;
pub mod error;
pub mod events;
pub mod filter;
pub mod gateway;
pub mod history;
pub mod laws;
pub mod message;
pub mod model;
pub mod models;
pub mod onboarding;
pub mod options;
pub mod sort;
pub mod tasks;
pub mod text;
pub mod update;

pub use error::DealveError;
