//! Core of a keyboard-driven terminal dashboard for browsing an exchange's
//! tradable assets, filtering asset pairs by a selected asset, and curating a
//! favorites list with drill-down detail.
//!
//! The crate holds the verified navigation engine: the stateful-list
//! abstraction every view reuses, the closed event model, the five view
//! handlers, and the orchestrator that owns view transitions, one-time entry
//! hooks and single-level undo. Terminal I/O, rendering primitives and the
//! exchange REST client live outside; the client is reached only through the
//! [`kraken::client::RestAPI`] capability trait.

use vstd::prelude::*;

pub mod app;
pub mod kraken;
pub mod list;
pub mod stm;
pub mod text;

verus! {

/// Identifier the application reports about itself.
pub const APP_ID: &'static str = "kraken";

/// Version string the application reports about itself.
pub const APP_VERSION: &'static str = "0.0.1+";

} // verus!
