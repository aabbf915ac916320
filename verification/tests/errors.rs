use image_service::auth::AuthError;
use image_service::error::{ServiceError, Visible};
use image_service::lifecycle::LifecycleError;
use image_service::resolver::ResolveError;

#[test]
fn what_the_caller_is_told() {
    assert_eq!(ServiceError::InvalidIdentifier.surface(), Visible::ClientError);
    assert_eq!(ServiceError::InvalidAngle.surface(), Visible::ClientError);
    assert_eq!(ServiceError::NotFound.surface(), Visible::NotFound);
    assert_eq!(ServiceError::Unauthorized.surface(), Visible::NotFound);
    assert_eq!(ServiceError::Conflict.surface(), Visible::Conflict);
    assert_eq!(ServiceError::BackendFailure.surface(), Visible::InternalError);
    assert_eq!(ServiceError::IOFailure.surface(), Visible::InternalError);
}

#[test]
fn unauthorized_looks_like_not_found() {
    assert_eq!(
        ServiceError::from_auth(AuthError::InvalidToken).surface().status_code(),
        ServiceError::from_resolve(ResolveError::NotFound).surface().status_code()
    );
    assert_eq!(ServiceError::from_auth(AuthError::MissingCredential), ServiceError::Unauthorized);
}

#[test]
fn only_internal_failures_are_logged() {
    assert!(ServiceError::BackendFailure.is_logged());
    assert!(ServiceError::IOFailure.is_logged());
    for quiet in [
        ServiceError::InvalidIdentifier,
        ServiceError::InvalidAngle,
        ServiceError::NotFound,
        ServiceError::Unauthorized,
        ServiceError::Conflict,
    ] {
        assert!(!quiet.is_logged());
    }
}

#[test]
fn status_codes() {
    assert_eq!(Visible::ClientError.status_code(), 400);
    assert_eq!(Visible::NotFound.status_code(), 404);
    assert_eq!(Visible::Conflict.status_code(), 409);
    assert_eq!(Visible::InternalError.status_code(), 500);
}

#[test]
fn failures_of_the_parts() {
    assert_eq!(ServiceError::from_lifecycle(LifecycleError::InvalidIdentifier), ServiceError::InvalidIdentifier);
    assert_eq!(ServiceError::from_lifecycle(LifecycleError::InvalidAngle), ServiceError::InvalidAngle);
    assert_eq!(ServiceError::from_lifecycle(LifecycleError::NotFound), ServiceError::NotFound);
    assert_eq!(ServiceError::from_lifecycle(LifecycleError::Conflict), ServiceError::Conflict);
    assert_eq!(ServiceError::from_resolve(ResolveError::InvalidIdentifier), ServiceError::InvalidIdentifier);
    assert_eq!(ServiceError::from_resolve(ResolveError::NotFound), ServiceError::NotFound);
    assert_eq!(ServiceError::from_resolve(ResolveError::BackendFailure), ServiceError::BackendFailure);
}
