//! Error kinds surfaced to clients during the work of the reverse proxy.
//!
//! Every failure of a single request is converted into exactly one outbound
//! error envelope; the variants here are the kinds a client can observe.

use vstd::prelude::*;
use vstd::string::StringExecFns;

verus! {

/// The generic text of a `MessageBrokerError`: a broker failure never
/// carries broker internals to the client.
pub const MESSAGE_BROKER_ERROR_TEXT: &'static str =
    "The request wasn't processed. Please, try once again.";

/// An enum of all possible errors which could occur while the proxy
/// serves one request.
#[derive(Debug)]
pub enum PathfinderError {
    /// The inner structure of a configured endpoint is invalid, for
    /// example missing fields.
    InvalidEndpoint(String),
    /// The requested URL has no endpoint in the registry.
    EndpointNotFound(String),
    /// The incoming frame could not be decoded or validated.
    DecodingError(String),
    /// The token is missing, or it was rejected by the auth microservice.
    AuthenticationError(String),
    /// A step of the round-trip over the message broker failed.
    MessageBrokerError(String),
    /// A microservice answered with a non-null `error` member; the compact
    /// JSON text of that member is carried and forwarded verbatim.
    MicroserviceError(String),
}

impl PathfinderError {
    /// The error kind, as written into the `type` member of an outbound
    /// error envelope.
    pub open spec fn spec_kind(&self) -> Seq<char> {
        match self {
            PathfinderError::InvalidEndpoint(_) => "InvalidEndpoint"@,
            PathfinderError::EndpointNotFound(_) => "EndpointNotFound"@,
            PathfinderError::DecodingError(_) => "DecodingError"@,
            PathfinderError::AuthenticationError(_) => "AuthenticationError"@,
            PathfinderError::MessageBrokerError(_) => "MessageBrokerError"@,
            PathfinderError::MicroserviceError(_) => "MicroserviceError"@,
        }
    }

    /// The detail text carried into an outbound error envelope.
    pub open spec fn spec_details(&self) -> Seq<char> {
        match self {
            PathfinderError::InvalidEndpoint(m) => m@,
            PathfinderError::EndpointNotFound(m) => "Endpoint \""@ + m@ + "\" was not found"@,
            PathfinderError::DecodingError(m) => m@,
            PathfinderError::AuthenticationError(m) => m@,
            PathfinderError::MessageBrokerError(m) => m@,
            PathfinderError::MicroserviceError(m) => m@,
        }
    }

    /// The human-readable rendering of the error, kind prefix included.
    pub open spec fn spec_message(&self) -> Seq<char> {
        match self {
            PathfinderError::InvalidEndpoint(m) => "Parse error: "@ + m@,
            PathfinderError::EndpointNotFound(m) => "Endpoint \""@ + m@ + "\" was not found"@,
            PathfinderError::DecodingError(m) => "Decoding error: "@ + m@,
            PathfinderError::AuthenticationError(m) => "Authentication error: "@ + m@,
            PathfinderError::MessageBrokerError(m) => m@,
            PathfinderError::MicroserviceError(m) => m@,
        }
    }

    /// Returns the error kind as text.
    pub fn kind(&self) -> (r: &'static str)
        ensures
            r@ == self.spec_kind(),
    {
        match self {
            PathfinderError::InvalidEndpoint(_) => "InvalidEndpoint",
            PathfinderError::EndpointNotFound(_) => "EndpointNotFound",
            PathfinderError::DecodingError(_) => "DecodingError",
            PathfinderError::AuthenticationError(_) => "AuthenticationError",
            PathfinderError::MessageBrokerError(_) => "MessageBrokerError",
            PathfinderError::MicroserviceError(_) => "MicroserviceError",
        }
    }

    /// Returns the bare detail text carried by the error.
    pub fn details(&self) -> (r: String)
        ensures
            r@ == self.spec_details(),
    {
        match self {
            PathfinderError::InvalidEndpoint(m) => m.clone(),
            PathfinderError::EndpointNotFound(m) => "Endpoint \"".to_owned().concat(
                m.as_str(),
            ).concat("\" was not found"),
            PathfinderError::DecodingError(m) => m.clone(),
            PathfinderError::AuthenticationError(m) => m.clone(),
            PathfinderError::MessageBrokerError(m) => m.clone(),
            PathfinderError::MicroserviceError(m) => m.clone(),
        }
    }

    /// Returns the human-readable rendering of the error.
    pub fn message(&self) -> (r: String)
        ensures
            r@ == self.spec_message(),
    {
        match self {
            PathfinderError::InvalidEndpoint(m) => "Parse error: ".to_owned().concat(m.as_str()),
            PathfinderError::EndpointNotFound(m) => "Endpoint \"".to_owned().concat(m.as_str()).concat(
                "\" was not found",
            ),
            PathfinderError::DecodingError(m) => "Decoding error: ".to_owned().concat(m.as_str()),
            PathfinderError::AuthenticationError(m) => "Authentication error: ".to_owned().concat(
                m.as_str(),
            ),
            PathfinderError::MessageBrokerError(m) => m.clone(),
            PathfinderError::MicroserviceError(m) => m.clone(),
        }
    }
}

} // verus!
