//! Core logic of a desktop supervisor for a long-running backend
//! service: child-process lifecycle, health polling with bounded wait
//! and edge monitoring, and a JSON-envelope message bridge that routes
//! requests from a UI surface to handlers and correlates their
//! responses. Everything that touches the operating system — spawning,
//! HTTP probes, timers, file I/O, the UI shell — happens outside and
//! hands its observations in as plain values; every decision made on
//! those observations is specified and verified here.

use vstd::prelude::*;

pub mod bridge;
pub mod config;
pub mod envelope;
pub mod health;
pub mod host;
pub mod json;
pub mod memhost;
pub mod status;
pub mod supervisor;
pub mod webview;

verus! {

} // verus!
