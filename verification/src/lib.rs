//! A reactive, persisted state-synchronization core for a cross-platform
//! application shell.
//!
//! The frontend dispatches events; each event becomes one statement on the
//! store; each commit that changes a watched table produces one update; the
//! updates reach the listener in the order of the commits.
//!
//! - [`text`]: the decimal encoding of the counter.
//! - [`navigation`]: routes, their persisted names, and the router.
//! - [`schema`]: the tables, and the statements and queries on them.
//! - [`database`]: the store and its observer.
//! - [`updater`]: the updates and the bus that carries them.
//! - [`app`]: the application and the handle of the frontend.
//! - [`model`]: the counter as a model that is kept in memory.
//! - [`laws`]: what holds over whole sequences of dispatches.

pub mod app;
pub mod database;
pub mod laws;
pub mod model;
pub mod navigation;
pub mod schema;
pub mod text;
pub mod updater;
