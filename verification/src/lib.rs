//! An authenticated ticket service's request pipeline, verified.
//!
//! The crate covers the pipeline that a thin transport layer drives for every
//! request: cookie-based session resolution, the authorization guard in front
//! of the ticket routes, the in-memory ticket store, and the terminal mapping
//! of any failure to a uniform JSON error envelope plus a log record.

pub mod auth;
pub mod ctx;
pub mod digits;
pub mod error;
pub mod ext;
pub mod http;
pub mod json;
pub mod pipeline;
pub mod routes;
pub mod store;
pub mod text;
