//! Single-connection HTTP/3 benchmarking client: the decisions of a run,
//! kept apart from the socket and the transport engine that carry them out.
//!
//! - `driver`: the connection orchestrator, one command at a time.
//! - `pipeline`: the request pipeline, at most one request in flight.
//! - `record`: the latency recorder, one record per measured request.
//! - `event`: what the session layer reports, and why a connection closes.
//! - `header`, `status`: header fields and the response status they carry.
//! - `request`: the header set of the request, built from the target URL.
//! - `laws`: what holds of every run.

pub mod driver;
pub mod event;
pub mod header;
pub mod laws;
pub mod pipeline;
pub mod record;
pub mod request;
pub mod status;
