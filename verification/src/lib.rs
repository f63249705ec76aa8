//! Verified core of a vaccine-appointment poller.
//!
//! The library holds the decision logic of the poller: which providers a
//! cycle runs, how a provider's upstream request and the push-notification
//! payload are built, how a gzip-compressed JSON availability response is
//! decoded and interpreted, and how failures are turned into error reports.
//! All network traffic, the async runtime and the process entry point live
//! outside the library and only carry plain values in and out of it.

pub mod config;
pub mod cycle;
pub mod date;
pub mod errors;
pub mod json;
pub mod pushover;
pub mod text;
pub mod walgreens;

use vstd::prelude::*;

verus! {

/// The fixed title of an availability notification.
pub const NOTIFY_TITLE: &'static str = "Vaccinate!";

/// The fixed title of an escalated error notification.
pub const ERROR_TITLE: &'static str = "Vaccinate Error";

} // verus!
