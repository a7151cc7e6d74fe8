//! Session bookkeeping for a probabilistic regression search.
pub mod candidates;
pub mod commands;
pub mod regression;
pub mod session;
pub mod state;
