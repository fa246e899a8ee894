//! Read-only aggregation layer for portfolio data.
//!
//! The crate turns already-computed domain objects (accounts, holdings,
//! exchange rates, quotes, performance metrics, activities) into a stable
//! JSON shape, and combines per-account provider results into single
//! responses.  All decisions — which providers to consult, how partial
//! failures collapse, and the exact JSON rendered for every entity — live
//! here and are verified.

pub mod handlers;
pub mod json;
pub mod memory;
pub mod model;
pub mod project;
pub mod providers;
pub mod service;
pub mod text;
pub mod time;
