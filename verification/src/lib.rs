//! Regional carbon-intensity polling core.
//!
//! The library decodes the upstream JSON payload describing a region's
//! carbon-intensity observations, derives the numeric gauge values that are
//! republished for scraping, and drives the per-region polling cycle as a
//! state machine.  All I/O (the HTTP fetch, the metric exposition endpoint,
//! the timers) lives outside the library; it is handed plain values and
//! returns plain values.

pub mod adapt;
pub mod decode;
pub mod errors;
pub mod fetch;
pub mod json;
pub mod poller;
pub mod strutil;
pub mod timestamp;
pub mod types;

use vstd::prelude::*;

verus! {

/// Resolved process configuration: the postal-code regions to poll and the
/// address (textual, e.g. `"[::]:9993"`) the exposition endpoint listens on.
pub struct Config {
    pub postcodes: Vec<String>,
    pub listen_addr: String,
}

} // verus!
