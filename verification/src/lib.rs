//! A small benchmarking helper: it times a labeled unit of work and appends
//! the result as a row of an append-only, CSV-formatted record store.

pub mod encode;
pub mod laws;
pub mod recorder;
pub mod store;
pub mod text;
