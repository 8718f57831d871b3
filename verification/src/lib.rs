//! Coordinator logic for a small distributed job runner: the job registry,
//! the worker registry, capacity-aware worker selection and the dispatch
//! protocol that carries a submission to a terminal state.

pub mod cli;
pub mod dispatch;
pub mod filters;
pub mod handlers;
pub mod jobs;
pub mod modules;
pub mod selector;
pub mod text;
pub mod wasm;
pub mod worker;
pub mod workers;
