//! The error taxonomy: one reportable type for transport failures,
//! address failures, and service-reported failures.

use vstd::prelude::*;
use vstd::string::StringExecFns;

verus! {

/// PostalError denotes the library's errors.
#[derive(Debug, Clone, PartialEq, Eq)]
pub enum PostalError {
    /// The underlying network or HTTP transport failed; carries the
    /// transport's own message.
    Transport(String),
    /// The base address, or the address joined with an operation's path,
    /// does not parse as an absolute URL.
    InvalidAddress,
    /// The service explicitly reported an error, with a machine-readable
    /// code and a human-readable message.
    ServiceError { code: String, message: String },
    /// The service answered with HTTP status 500.
    InternalServerError,
    /// The service answered with HTTP status 503.
    ServiceUnavailable,
    /// The service answered with HTTP status 301 or 308: the request should
    /// be re-sent to another URL, which the caller must resolve out of band.
    ExpectedAlternativeUrl,
    /// The response did not match the documented contract: an undocumented
    /// HTTP status, a body that is not JSON, an envelope of an unknown
    /// shape, or the undocumented parameter-error shape.
    MalformedResponse,
}

/// The mathematical model of a library error.
#[verifier::ext_equal]
pub enum ErrorModel {
    Transport(Seq<char>),
    InvalidAddress,
    ServiceError { code: Seq<char>, message: Seq<char> },
    InternalServerError,
    ServiceUnavailable,
    ExpectedAlternativeUrl,
    MalformedResponse,
}

impl View for PostalError {
    type V = ErrorModel;

    open spec fn view(&self) -> ErrorModel {
        match self {
            PostalError::Transport(m) => ErrorModel::Transport(m@),
            PostalError::InvalidAddress => ErrorModel::InvalidAddress,
            PostalError::ServiceError { code, message } => ErrorModel::ServiceError {
                code: code@,
                message: message@,
            },
            PostalError::InternalServerError => ErrorModel::InternalServerError,
            PostalError::ServiceUnavailable => ErrorModel::ServiceUnavailable,
            PostalError::ExpectedAlternativeUrl => ErrorModel::ExpectedAlternativeUrl,
            PostalError::MalformedResponse => ErrorModel::MalformedResponse,
        }
    }
}

/// The human-readable description of an error.
pub open spec fn described(e: ErrorModel) -> Seq<char> {
    match e {
        ErrorModel::Transport(m) => "transport failure: "@ + m,
        ErrorModel::InvalidAddress => "the address is not a valid absolute URL"@,
        ErrorModel::ServiceError { code, message } => "service error ("@ + code + "): "@
            + message,
        ErrorModel::InternalServerError => "internal error on the service side"@,
        ErrorModel::ServiceUnavailable => "the service is unavailable"@,
        ErrorModel::ExpectedAlternativeUrl => "the request should be sent to another URL"@,
        ErrorModel::MalformedResponse => "the response did not match the documented contract"@,
    }
}

impl PostalError {
    /// Renders the error as a human-readable line.
    pub fn describe(&self) -> (r: String)
        ensures
            r@ == described(self@),
    {
        match self {
            PostalError::Transport(m) => "transport failure: ".to_owned().concat(m.as_str()),
            PostalError::InvalidAddress => "the address is not a valid absolute URL".to_owned(),
            PostalError::ServiceError { code, message } => "service error (".to_owned().concat(
                code.as_str(),
            ).concat("): ").concat(message.as_str()),
            PostalError::InternalServerError => "internal error on the service side".to_owned(),
            PostalError::ServiceUnavailable => "the service is unavailable".to_owned(),
            PostalError::ExpectedAlternativeUrl => {
                "the request should be sent to another URL".to_owned()
            },
            PostalError::MalformedResponse => {
                "the response did not match the documented contract".to_owned()
            },
        }
    }
}

} // verus!
