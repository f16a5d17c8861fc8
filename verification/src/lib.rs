//! Session protocol and status-decoding engine for a laundry-machine
//! telemetry scraper.
//!
//! The library derives an authentication state from parsed HTML pages,
//! drives the login handshake and session-invalidation detection, and
//! decodes the site's quirky JSON status payload (tri-state booleans,
//! `H:M` durations, un-keyed numeric machine IDs) into a validated
//! domain model.  All network and document-parsing plumbing lives
//! outside the library; every function here is pure and verified.

pub mod client;
pub mod metrics;
pub mod model;
pub mod poller;
pub mod session;
pub mod strict_types;
pub mod text;
