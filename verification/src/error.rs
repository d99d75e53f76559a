//! The failure taxonomy of the protocol and its client-visible mapping.
//! Validation and authentication failures are detected before any store
//! mutation; store-side failures are terminal for the request and reach the
//! client only as a generic category string, never with internal detail.

use vstd::prelude::*;
use vstd::string::*;

verus! {

/// Spec-level image of [`Error`], over character sequences.
pub enum ErrorSpec {
    InvalidField(Seq<char>),
    UserExists(Seq<char>),
    Unauthorized,
    StoreFailure,
    Unknown(Seq<char>),
}

/// The protocol's error kinds.
#[derive(Debug)]
pub enum Error {
    /// A field failed its validation rule; carries the field name.
    InvalidField(String),
    /// Account creation was asked for a taken username; carries the username.
    UserExists(String),
    /// Missing, malformed or incorrect credentials.
    Unauthorized,
    /// An underlying store call reported an error.
    StoreFailure,
    /// A store write reported non-success without a specific error; carries
    /// the server-side detail, which is logged and never sent to the client.
    Unknown(String),
}

impl View for Error {
    type V = ErrorSpec;

    open spec fn view(&self) -> ErrorSpec {
        match self {
            Error::InvalidField(f) => ErrorSpec::InvalidField(f@),
            Error::UserExists(u) => ErrorSpec::UserExists(u@),
            Error::Unauthorized => ErrorSpec::Unauthorized,
            Error::StoreFailure => ErrorSpec::StoreFailure,
            Error::Unknown(m) => ErrorSpec::Unknown(m@),
        }
    }
}

/// The view of an operation outcome: the success view or the error view.
pub open spec fn result_view<T: View>(r: Result<T, Error>) -> Result<T::V, ErrorSpec> {
    match r {
        Ok(t) => Ok(t@),
        Err(e) => Err(e@),
    }
}

/// The client-visible message and HTTP status code of each error kind.
pub open spec fn response_spec(e: ErrorSpec) -> (Seq<char>, u16) {
    match e {
        ErrorSpec::InvalidField(f) => ("INVALID_FIELD: "@ + f, 400u16),
        ErrorSpec::UserExists(u) => ("USER_EXISTS: "@ + u, 409u16),
        ErrorSpec::Unauthorized => ("UNAUTHORIZED"@, 401u16),
        ErrorSpec::StoreFailure => ("INTERNAL_SERVER_ERROR"@, 500u16),
        ErrorSpec::Unknown(_) => ("INTERNAL_SERVER_ERROR"@, 500u16),
    }
}

impl Error {
    /// Maps the error to its client-visible message and status code. Server
    /// failures collapse to a generic message: storage-layer diagnostics do
    /// not leak to clients.
    pub fn response(&self) -> (r: (String, u16))
        ensures
            (r.0@, r.1) == response_spec(self@),
    {
        match self {
            Error::InvalidField(f) => {
                let mut m = String::from_str("INVALID_FIELD: ");
                m.append(f.as_str());
                (m, 400)
            },
            Error::UserExists(u) => {
                let mut m = String::from_str("USER_EXISTS: ");
                m.append(u.as_str());
                (m, 409)
            },
            Error::Unauthorized => (String::from_str("UNAUTHORIZED"), 401),
            Error::StoreFailure => (String::from_str("INTERNAL_SERVER_ERROR"), 500),
            Error::Unknown(_) => (String::from_str("INTERNAL_SERVER_ERROR"), 500),
        }
    }
}

} // verus!
