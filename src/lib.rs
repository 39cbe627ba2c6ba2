//! Client library for the Midtrans payment API: configuration, request
//! preparation, response decoding and error classification.
//!
//! Midtrans has two products, each with its client here: the core (direct)
//! API, [`CoreApi`], and the hosted checkout, [`Snap`]. Both share the
//! transaction lifecycle operations of [`Transactions`].
//!
//! The library decides everything about a call: which URL, which verb, which
//! credentials, which payload, and what the answer means. An operation gives
//! the one [`ApiRequest`] to send; the transport sends it and hands the status
//! code, headers and body that came back to [`decode_response`], which gives
//! the decoded object or a typed [`MidtransError`].

pub mod config;
pub mod json;
pub mod error_midtrans;
pub mod http_client;
pub mod transactions;
pub mod core_api;
pub mod snap;

pub use config::ApiConfig;
pub use core_api::CoreApi;
pub use snap::Snap;
pub use error_midtrans::{ApiError, MidtransError};
pub use http_client::{ApiRequest, Method, Payload, decode_response, prepare_request};
pub use json::{JsonObject, JsonValue};
pub use transactions::Transactions;
