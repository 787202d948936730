//! The failure taxonomy of the client. Every unrecoverable condition is one of
//! these variants; the surrounding program surfaces them and exits non-zero.

use vstd::prelude::*;
use vstd::string::StringExecFns;

verus! {

/// One reason an invocation fails. The pipeline performs exactly one automatic
/// recovery (a single re-authentication on token expiry); every one of these
/// is terminal for the current invocation.
#[derive(Debug, Clone, PartialEq, Eq)]
pub enum ClientError {
    /// Exactly one of the username/password flags was supplied.
    InvalidArguments,
    /// No explicit credentials and no credential record to fall back on.
    MissingConfiguration,
    /// Setup found a credential record already present and was not told to
    /// overwrite it.
    ExistingConfiguration,
    /// The remote login call was rejected; carries the raw response body.
    AuthenticationError(String),
    /// An authenticated call failed with a non-expiry error; carries the raw
    /// response body.
    ApiError(String),
    /// A token minted a moment ago was reported expired on its first use.
    ProtocolInvariantViolation,
    /// The credential record could not be read or written.
    IoError(String),
    /// The network transport failed, or a response could not be decoded.
    TransportError(String),
}

/// The human-readable message for each failure.
pub open spec fn error_text(e: ClientError) -> Seq<char> {
    match e {
        ClientError::InvalidArguments => "you must pass both a username and password, or neither"@,
        ClientError::MissingConfiguration => "no credentials available: run the setup command, or pass a username and password"@,
        ClientError::ExistingConfiguration => "a credential record already exists: pass the overwrite flag to replace it"@,
        ClientError::AuthenticationError(m) => "got an error when logging in (response = "@ + m@ + ")"@,
        ClientError::ApiError(m) => "the service reported an error (response = "@ + m@ + ")"@,
        ClientError::ProtocolInvariantViolation => "token is supposedly expired, but it was just issued"@,
        ClientError::IoError(m) => "could not access the credential record ("@ + m@ + ")"@,
        ClientError::TransportError(m) => "could not reach the service or decode its response ("@ + m@ + ")"@,
    }
}

impl ClientError {
    /// Render the error as the message the surrounding program prints.
    pub fn describe(&self) -> (r: String)
        ensures
            r@ == error_text(*self),
    {
        match self {
            ClientError::InvalidArguments => String::from_str(
                "you must pass both a username and password, or neither",
            ),
            ClientError::MissingConfiguration => String::from_str(
                "no credentials available: run the setup command, or pass a username and password",
            ),
            ClientError::ExistingConfiguration => String::from_str(
                "a credential record already exists: pass the overwrite flag to replace it",
            ),
            ClientError::AuthenticationError(m) => String::from_str(
                "got an error when logging in (response = ",
            ).concat(m.as_str()).concat(")"),
            ClientError::ApiError(m) => String::from_str(
                "the service reported an error (response = ",
            ).concat(m.as_str()).concat(")"),
            ClientError::ProtocolInvariantViolation => String::from_str(
                "token is supposedly expired, but it was just issued",
            ),
            ClientError::IoError(m) => String::from_str(
                "could not access the credential record (",
            ).concat(m.as_str()).concat(")"),
            ClientError::TransportError(m) => String::from_str(
                "could not reach the service or decode its response (",
            ).concat(m.as_str()).concat(")"),
        }
    }
}

} // verus!
