//! The credential record and the rules that pick a login identity out of
//! explicit flags, a persisted record, or neither.

use vstd::prelude::*;

use crate::errors::ClientError;

verus! {

/// The persisted credential record: `{username, password, token}`. The token
/// may be stale; the request pipeline finds that out on first use. The
/// surrounding program owns the file this is stored in and only ever reads it
/// once and writes it once per invocation.
#[derive(Debug, Clone, PartialEq, Eq)]
pub struct Settings {
    pub username: String,
    pub password: String,
    pub token: String,
}

impl Settings {
    pub fn new(username: String, password: String, token: String) -> (r: Settings)
        ensures
            (r == Settings { username, password, token }),
    {
        Settings { username, password, token }
    }
}

/// Where the credentials for this invocation came from. An `Explicit` identity
/// never carries a cached token, so it always triggers a fresh login; only a
/// `Stored` identity may try a cached token first, and only a `Stored`
/// identity ever has a rotated token written back to the record.
#[derive(Debug, Clone, PartialEq, Eq)]
pub enum LoginDetails {
    /// Loaded from the credential record; the token may or may not still be
    /// valid.
    Stored(Settings),
    /// Username and password given on the command line or at a prompt.
    Explicit(String, String),
}

/// Merge explicit command-line credentials and the persisted record into one
/// login identity, under the strict precedence order: explicit credentials
/// win; otherwise the record; otherwise the invocation cannot proceed.
///
/// `record` is the credential record, if one was found at the resolved path.
/// Supplying exactly one of `username`/`password` is rejected outright, and
/// the explicit path never consults any cached token.
pub fn resolve_login(
    username: Option<String>,
    password: Option<String>,
    record: Option<Settings>,
) -> (r: Result<LoginDetails, ClientError>)
    ensures
        (username is Some) != (password is Some) ==> r == Err::<
            LoginDetails,
            ClientError,
        >(ClientError::InvalidArguments),
        r == (match (username, password, record) {
            (Some(u), Some(p), _) => Ok(LoginDetails::Explicit(u, p)),
            (Some(_), None, _) => Err(ClientError::InvalidArguments),
            (None, Some(_), _) => Err(ClientError::InvalidArguments),
            (None, None, Some(s)) => Ok(LoginDetails::Stored(s)),
            (None, None, None) => Err(ClientError::MissingConfiguration),
        }),
{
    match (username, password) {
        (Some(u), Some(p)) => Ok(LoginDetails::Explicit(u, p)),
        (Some(_), None) => Err(ClientError::InvalidArguments),
        (None, Some(_)) => Err(ClientError::InvalidArguments),
        (None, None) => match record {
            Some(s) => Ok(LoginDetails::Stored(s)),
            None => Err(ClientError::MissingConfiguration),
        },
    }
}

/// The overwrite guard of the setup flow: setup may proceed against a path
/// that already holds a record only when overwriting was requested. When this
/// returns an error the caller must leave the existing file untouched.
pub fn setup_guard(record_exists: bool, overwrite: bool) -> (r: Result<(), ClientError>)
    ensures
        r is Ok <==> (overwrite || !record_exists),
        r is Err ==> r == Err::<(), ClientError>(ClientError::ExistingConfiguration),
{
    if record_exists && !overwrite {
        Err(ClientError::ExistingConfiguration)
    } else {
        Ok(())
    }
}

} // verus!
