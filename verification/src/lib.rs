//! Enrichment and resolution layer for subscription records.
//!
//! Turns unreliable external providers (a structured search API, an HTML
//! search page, a favicon service, a language-model endpoint) into
//! best-effort, cached, always-responding results.  The cascade decisions,
//! the caches and the text handling are verified; outbound transport is the
//! caller's concern and feeds its raw replies back into the step functions
//! here.

pub mod advise;
pub mod cache;
pub mod domain;
pub mod enrich;
pub mod notify;
pub mod subs;
pub mod icon;
pub mod text;
