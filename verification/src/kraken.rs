//! The exchange-client capability the dashboard consumes, together with the
//! plain-value catalogue records the client hands back.

pub mod client;
