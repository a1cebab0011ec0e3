//! The closed error taxonomy of the request pipeline.
//!
//! Every failure inside resolution, authorization and the store is a value of
//! [`Error`]. The mapping to a client-visible (status, code) pair is total and
//! never yields a success status; internal kinds degrade to a generic service
//! error so that no internal detail reaches a client.

use vstd::prelude::*;

verus! {

/// Every failure kind the pipeline can produce.
#[derive(Clone, Copy, Debug, PartialEq, Eq, Structural)]
pub enum Error {
    /// Credentials presented to the login route were rejected.
    LoginFailed,
    /// No auth cookie was present on the request.
    AuthFailNoAuthTokenCookie,
    /// The auth cookie was present but did not parse as a session token.
    AuthFailTokenWrongFormat,
    /// The authorization guard ran without any resolution outcome recorded.
    /// Defensive: resolution runs unconditionally, so this is unreachable in
    /// the assembled pipeline, but the guard must still answer safely.
    AuthFailCtxNotInRequest,
    /// A delete named an id that no stored ticket carries.
    TicketDeleteFailIdNotFound { id: u64 },
    /// The store's guarded state was unusable (internal kind; never detailed
    /// to the client).
    StorePoisoned,
}

/// The client-visible error codes. Several internal kinds may share a code;
/// internal kinds map to `ServiceError` only.
#[derive(Clone, Copy, Debug, PartialEq, Eq, Structural)]
pub enum ClientError {
    LoginFail,
    NoAuth,
    InvalidParams,
    ServiceError,
}

impl Error {
    /// The HTTP status this kind maps to.
    pub open spec fn spec_status(self) -> u16 {
        match self {
            Error::LoginFailed => 401,
            Error::AuthFailNoAuthTokenCookie => 401,
            Error::AuthFailTokenWrongFormat => 401,
            Error::AuthFailCtxNotInRequest => 401,
            Error::TicketDeleteFailIdNotFound { .. } => 400,
            Error::StorePoisoned => 500,
        }
    }

    /// The client-visible code this kind maps to.
    pub open spec fn spec_client_error(self) -> ClientError {
        match self {
            Error::LoginFailed => ClientError::LoginFail,
            Error::AuthFailNoAuthTokenCookie => ClientError::NoAuth,
            Error::AuthFailTokenWrongFormat => ClientError::NoAuth,
            Error::AuthFailCtxNotInRequest => ClientError::NoAuth,
            Error::TicketDeleteFailIdNotFound { .. } => ClientError::InvalidParams,
            Error::StorePoisoned => ClientError::ServiceError,
        }
    }

    /// The (status, code) pair shown to the client for this kind.
    pub fn client_status_and_error(&self) -> (r: (u16, ClientError))
        ensures
            r.0 == self.spec_status(),
            r.1 == self.spec_client_error(),
    {
        match self {
            Error::LoginFailed => (401, ClientError::LoginFail),
            Error::AuthFailNoAuthTokenCookie => (401, ClientError::NoAuth),
            Error::AuthFailTokenWrongFormat => (401, ClientError::NoAuth),
            Error::AuthFailCtxNotInRequest => (401, ClientError::NoAuth),
            Error::TicketDeleteFailIdNotFound { .. } => (400, ClientError::InvalidParams),
            Error::StorePoisoned => (500, ClientError::ServiceError),
        }
    }
}

/// No error kind maps to a success status: every status is in the 4xx or 5xx
/// range, and internal kinds expose only the generic service code.
pub proof fn lemma_no_error_maps_to_success(e: Error)
    ensures
        400 <= e.spec_status() < 600,
        e is StorePoisoned ==> e.spec_client_error() == ClientError::ServiceError,
{
}

impl ClientError {
    /// The stable wire spelling of this code.
    pub open spec fn spec_code(self) -> Seq<char> {
        match self {
            ClientError::LoginFail => "LOGIN_FAIL"@,
            ClientError::NoAuth => "NO_AUTH"@,
            ClientError::InvalidParams => "INVALID_PARAMS"@,
            ClientError::ServiceError => "SERVICE_ERROR"@,
        }
    }

    /// The wire spelling of this code, as sent in the error envelope.
    pub fn code(&self) -> (r: &'static str)
        ensures
            r@ == self.spec_code(),
    {
        match self {
            ClientError::LoginFail => "LOGIN_FAIL",
            ClientError::NoAuth => "NO_AUTH",
            ClientError::InvalidParams => "INVALID_PARAMS",
            ClientError::ServiceError => "SERVICE_ERROR",
        }
    }
}

} // verus!
