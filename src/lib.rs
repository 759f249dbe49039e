//! Request translation and response normalisation for a small weather
//! gateway: inbound query parameters become outbound provider requests, and
//! provider replies become a uniform client-facing envelope.

pub mod decimal;
pub mod query;
pub mod json;
pub mod envelope;
pub mod request;
pub mod gateway;
pub mod laws;
