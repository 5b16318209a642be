//! What can go wrong while a reply of the service is fetched and decoded.

use vstd::prelude::*;
use vstd::string::StringExecFns;

verus! {

/// `reqwest::Error`, which is carried along and never looked into.
#[verifier::external_type_specification]
#[verifier::external_body]
pub struct ExRequestError(reqwest::Error);

/// A failure to obtain a decoded reply.
#[derive(Debug)]
pub enum ClientError {
    /// The request could not be sent, or no reply came back.
    RequestFailed(reqwest::Error),
    /// The reply is not JSON, or not the JSON that the endpoint returns.
    DeserializeFailed(serde_json::Error),
    /// The service answered with an error of its own.
    ApiErrorResponse(String),
}

impl From<serde_json::Error> for ClientError {
    fn from(error: serde_json::Error) -> (r: ClientError) {
        ClientError::DeserializeFailed(error)
    }
}

impl vstd::std_specs::convert::FromSpecImpl<serde_json::Error> for ClientError {
    open spec fn obeys_from_spec() -> bool {
        true
    }

    open spec fn from_spec(error: serde_json::Error) -> ClientError {
        ClientError::DeserializeFailed(error)
    }
}

impl From<reqwest::Error> for ClientError {
    fn from(error: reqwest::Error) -> (r: ClientError) {
        ClientError::RequestFailed(error)
    }
}

impl vstd::std_specs::convert::FromSpecImpl<reqwest::Error> for ClientError {
    open spec fn obeys_from_spec() -> bool {
        true
    }

    open spec fn from_spec(error: reqwest::Error) -> ClientError {
        ClientError::RequestFailed(error)
    }
}

impl ClientError {
    /// The words with which the description of the failure begins.
    pub open spec fn preamble(&self) -> Seq<char> {
        match self {
            ClientError::RequestFailed(_) => "Unable to send the request: "@,
            ClientError::DeserializeFailed(_) => "Unable to deserialize the received value: "@,
            ClientError::ApiErrorResponse(_) => "API returned an error response: "@,
        }
    }

    /// The description of the failure, given what its cause says of itself.
    pub fn describe(&self, cause: &str) -> (text: String)
        ensures
            text@ == self.preamble() + cause@,
    {
        let start = match self {
            ClientError::RequestFailed(_) => "Unable to send the request: ",
            ClientError::DeserializeFailed(_) => "Unable to deserialize the received value: ",
            ClientError::ApiErrorResponse(_) => "API returned an error response: ",
        };
        String::from_str(start).concat(cause)
    }

    /// The description of the failure: its preamble, then what the cause
    /// says of itself.
    pub fn message(&self) -> (text: String)
        ensures
            self.preamble().is_prefix_of(text@),
            self matches ClientError::ApiErrorResponse(reply) ==> text@ == self.preamble() + reply@,
    {
        match self {
            ClientError::RequestFailed(error) => {
                let cause = error.to_string();
                self.describe(cause.as_str())
            },
            ClientError::DeserializeFailed(error) => {
                let cause = error.to_string();
                self.describe(cause.as_str())
            },
            ClientError::ApiErrorResponse(reply) => self.describe(reply.as_str()),
        }
    }
}

} // verus!
