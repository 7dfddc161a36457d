//! A dynamic-DNS reconciler for one Cloudflare DNS record.
//!
//! The crate holds the decisions of the reconciliation loop and the rules
//! around its configuration. It performs no I/O: a driver sleeps, talks to
//! the network and hands every outcome back as an event.

pub mod cloudflare_api;
pub mod config;
pub mod guarantees;
pub mod reconciler;
pub mod text;
