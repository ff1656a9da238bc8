//! Client-side telemetry: events are enriched, buffered in order and handed
//! out as HTTP requests, one event alone or several as a batch.

pub mod event;
pub mod json;
pub mod queue;
pub mod client;
