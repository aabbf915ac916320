//! The failures of the service, and what a caller is told of each.

use crate::auth::AuthError;
use crate::lifecycle::LifecycleError;
use crate::resolver::ResolveError;
use vstd::prelude::*;

verus! {

/// Everything that can go wrong with a request.
#[derive(Clone, Copy, Debug, PartialEq, Eq, Structural)]
pub enum ServiceError {
    /// The identifier is nil or malformed.
    InvalidIdentifier,
    /// The rotation angle is not accepted.
    InvalidAngle,
    /// The asset or rendition is absent.
    NotFound,
    /// The auth collaborator rejected the credential.
    Unauthorized,
    /// The store is in a state that its invariant excludes.
    Conflict,
    /// The transform backend failed.
    BackendFailure,
    /// The file system failed with something other than "not found".
    IOFailure,
}

/// What a caller gets to see of a failure.
#[derive(Clone, Copy, Debug, PartialEq, Eq, Structural)]
pub enum Visible {
    /// The request itself is wrong.
    ClientError,
    /// Nothing is there for this caller.
    NotFound,
    /// The asset is in a state that rules the action out.
    Conflict,
    /// Something failed inside; no detail is given.
    InternalError,
}

/// What a caller is told of each failure. A rejected credential looks
/// like an absent asset; backend and file system failures look alike.
pub open spec fn surfaced(error: ServiceError) -> Visible {
    match error {
        ServiceError::InvalidIdentifier => Visible::ClientError,
        ServiceError::InvalidAngle => Visible::ClientError,
        ServiceError::NotFound => Visible::NotFound,
        ServiceError::Unauthorized => Visible::NotFound,
        ServiceError::Conflict => Visible::Conflict,
        ServiceError::BackendFailure => Visible::InternalError,
        ServiceError::IOFailure => Visible::InternalError,
    }
}

/// Which failures are written to the error log: those of the backend and
/// of the file system. An absent asset is expected and is not.
pub open spec fn logged(error: ServiceError) -> bool {
    error == ServiceError::BackendFailure || error == ServiceError::IOFailure
}

impl ServiceError {
    /// What the caller is told of this failure.
    pub fn surface(&self) -> (r: Visible)
        ensures
            r == surfaced(*self),
    {
        match self {
            ServiceError::InvalidIdentifier => Visible::ClientError,
            ServiceError::InvalidAngle => Visible::ClientError,
            ServiceError::NotFound => Visible::NotFound,
            ServiceError::Unauthorized => Visible::NotFound,
            ServiceError::Conflict => Visible::Conflict,
            ServiceError::BackendFailure => Visible::InternalError,
            ServiceError::IOFailure => Visible::InternalError,
        }
    }

    /// Tells whether this failure is written to the error log.
    pub fn is_logged(&self) -> (r: bool)
        ensures
            r == logged(*self),
    {
        match self {
            ServiceError::BackendFailure => true,
            ServiceError::IOFailure => true,
            _ => false,
        }
    }

    /// The failure of a lifecycle action.
    pub fn from_lifecycle(error: LifecycleError) -> (r: ServiceError)
        ensures
            r == match error {
                LifecycleError::InvalidIdentifier => ServiceError::InvalidIdentifier,
                LifecycleError::InvalidAngle => ServiceError::InvalidAngle,
                LifecycleError::NotFound => ServiceError::NotFound,
                LifecycleError::Conflict => ServiceError::Conflict,
            },
    {
        match error {
            LifecycleError::InvalidIdentifier => ServiceError::InvalidIdentifier,
            LifecycleError::InvalidAngle => ServiceError::InvalidAngle,
            LifecycleError::NotFound => ServiceError::NotFound,
            LifecycleError::Conflict => ServiceError::Conflict,
        }
    }

    /// The failure of a read request.
    pub fn from_resolve(error: ResolveError) -> (r: ServiceError)
        ensures
            r == match error {
                ResolveError::InvalidIdentifier => ServiceError::InvalidIdentifier,
                ResolveError::NotFound => ServiceError::NotFound,
                ResolveError::BackendFailure => ServiceError::BackendFailure,
            },
    {
        match error {
            ResolveError::InvalidIdentifier => ServiceError::InvalidIdentifier,
            ResolveError::NotFound => ServiceError::NotFound,
            ResolveError::BackendFailure => ServiceError::BackendFailure,
        }
    }

    /// The failure of an authorization: whatever was wrong with the
    /// credential, the caller is unauthorized.
    pub fn from_auth(error: AuthError) -> (r: ServiceError)
        ensures
            r == ServiceError::Unauthorized,
    {
        match error {
            AuthError::MissingCredential => ServiceError::Unauthorized,
            AuthError::InvalidToken => ServiceError::Unauthorized,
        }
    }
}

impl Visible {
    /// The HTTP status that tells the caller of this failure.
    pub fn status_code(&self) -> (r: u16)
        ensures
            r == match *self {
                Visible::ClientError => 400u16,
                Visible::NotFound => 404u16,
                Visible::Conflict => 409u16,
                Visible::InternalError => 500u16,
            },
    {
        match self {
            Visible::ClientError => 400,
            Visible::NotFound => 404,
            Visible::Conflict => 409,
            Visible::InternalError => 500,
        }
    }
}

/// A caller cannot tell a rejected credential from an absent asset, nor a
/// backend failure from a file system failure.
pub proof fn lemma_failures_leak_nothing()
    ensures
        surfaced(ServiceError::Unauthorized) == surfaced(ServiceError::NotFound),
        surfaced(ServiceError::BackendFailure) == surfaced(ServiceError::IOFailure),
        forall|e: ServiceError| logged(e) ==> surfaced(e) == Visible::InternalError,
{
}

} // verus!
