//! Interactive console core for administering a remote configuration service.
//!
//! The library holds the deterministic heart of the console: the screen state
//! machine, the form and text-field editing widgets, and the data model for
//! namespaces and configuration entries. Input events are turned into local
//! state changes plus optional [`Intent`](app::Intent) values describing the
//! remote calls to make; the surrounding runtime performs those calls and
//! feeds their results back as [`Outcome`](app::Outcome) values.

pub mod app;
pub mod editor;
pub mod error;
pub mod form;
pub mod keys;
pub mod laws;
pub mod model;
pub mod requests;
pub mod resp;
pub mod session;
pub mod settings;

pub use keys::KeyEvent;
