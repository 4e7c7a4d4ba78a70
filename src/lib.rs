//! A small client library for the metrics part of the Datadog HTTP API.
//!
//! The library selects an API version and an endpoint, collects the
//! request's headers and body, plans the request that has to be sent, and
//! turns the answer (a status code and a body) into a typed result.

pub mod version;
pub mod headers;
pub mod endpoints;
pub mod route;
pub mod builder;
pub mod json;
pub mod response;
pub mod timestamp;
pub mod text;
pub mod env;
pub mod v1;
