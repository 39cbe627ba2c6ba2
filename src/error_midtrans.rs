//! Error taxonomy of the client.

use vstd::prelude::*;
use crate::json::JsonObject;

verus! {

/// `reqwest::Error`: a transport failure, handed in by whoever sent the request.
#[verifier::external_type_specification]
#[verifier::external_body]
pub struct ExReqwestError(reqwest::Error);

/// `std::num::ParseIntError`: a status code that is no number.
#[verifier::external_type_specification]
#[verifier::external_body]
pub struct ExParseIntError(core::num::ParseIntError);

/// Midtransclient API Error Struct: what the remote service reported.
pub struct ApiError {
    pub message: String,
    pub status_code: u16,
    pub response: JsonObject,
}

impl ApiError {
    pub fn new(status_code: u16, response: JsonObject, message: String) -> (r: Self)
        ensures
            r.status_code == status_code,
            r.response == response,
            r.message == message,
    {
        ApiError { status_code, response, message }
    }
}

/// Midtransclient Custom Errors
pub enum MidtransError {
    RequestError(reqwest::Error),
    ParseError(core::num::ParseIntError),
    JsonDecodeError(serde_json::Error),
    ApiError(ApiError),
}

impl MidtransError {
    /// A short description of the kind of error.
    pub fn message(&self) -> (r: &'static str)
        ensures
            r@ == error_kind_text(*self),
    {
        match self {
            MidtransError::RequestError(_) => "Request Error",
            MidtransError::ParseError(_) => "Parse Int Error",
            MidtransError::JsonDecodeError(_) => "Fail to decode JSON string",
            MidtransError::ApiError(_) => "Midtrans API Error",
        }
    }
}

pub open spec fn error_kind_text(e: MidtransError) -> Seq<char> {
    match e {
        MidtransError::RequestError(_) => "Request Error"@,
        MidtransError::ParseError(_) => "Parse Int Error"@,
        MidtransError::JsonDecodeError(_) => "Fail to decode JSON string"@,
        MidtransError::ApiError(_) => "Midtrans API Error"@,
    }
}

impl From<reqwest::Error> for MidtransError {
    fn from(err: reqwest::Error) -> (r: Self) {
        MidtransError::RequestError(err)
    }
}

impl vstd::std_specs::convert::FromSpecImpl<reqwest::Error> for MidtransError {
    open spec fn obeys_from_spec() -> bool {
        true
    }

    open spec fn from_spec(err: reqwest::Error) -> Self {
        MidtransError::RequestError(err)
    }
}

impl From<serde_json::Error> for MidtransError {
    fn from(err: serde_json::Error) -> (r: Self) {
        MidtransError::JsonDecodeError(err)
    }
}

impl vstd::std_specs::convert::FromSpecImpl<serde_json::Error> for MidtransError {
    open spec fn obeys_from_spec() -> bool {
        true
    }

    open spec fn from_spec(err: serde_json::Error) -> Self {
        MidtransError::JsonDecodeError(err)
    }
}

impl From<core::num::ParseIntError> for MidtransError {
    fn from(err: core::num::ParseIntError) -> (r: Self) {
        MidtransError::ParseError(err)
    }
}

impl vstd::std_specs::convert::FromSpecImpl<core::num::ParseIntError> for MidtransError {
    open spec fn obeys_from_spec() -> bool {
        true
    }

    open spec fn from_spec(err: core::num::ParseIntError) -> Self {
        MidtransError::ParseError(err)
    }
}

impl From<ApiError> for MidtransError {
    fn from(err: ApiError) -> (r: Self) {
        MidtransError::ApiError(err)
    }
}

impl vstd::std_specs::convert::FromSpecImpl<ApiError> for MidtransError {
    open spec fn obeys_from_spec() -> bool {
        true
    }

    open spec fn from_spec(err: ApiError) -> Self {
        MidtransError::ApiError(err)
    }
}

} // verus!
