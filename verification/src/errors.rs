//! The error taxonomy shared by every service entry point.

use vstd::prelude::*;

verus! {

/// Why a request was refused, or why no work could be done.
///
/// The first two variants mean the caller's identity could not be
/// established; the next five are authorization outcomes for an
/// established identity; `StoreUnavailable` is reserved for a failing
/// persistence collaborator and is never produced by the core itself.
#[derive(Clone, Copy, Debug, PartialEq, Eq, Structural)]
pub enum ApiError {
    /// No bearer token was presented at all.
    MissingCredential,
    /// A bearer token was presented, but its digest matches no stored user.
    UnknownUser,
    /// The referenced board, note or user does not exist.
    NotFound,
    /// The user has no relationship whatsoever to the board.
    NotInvited,
    /// The operation is restricted to the board owner; the caller is not the owner.
    OwnerRequired,
    /// The caller is invited to the board but lacks the write capability.
    WriteDenied,
    /// The caller is invited to the board but lacks the read capability.
    ReadDenied,
    /// The persistence collaborator failed; never an authorization outcome.
    StoreUnavailable,
}

/// The HTTP status code that the transport layer maps each error to.
///
/// Identity failures map to 401, a missing resource to 404, capability
/// failures to 403 (one consistent choice), and a store failure to 500.
pub open spec fn spec_status_code(e: ApiError) -> u16 {
    match e {
        ApiError::MissingCredential => 401,
        ApiError::UnknownUser => 401,
        ApiError::NotFound => 404,
        ApiError::NotInvited => 403,
        ApiError::OwnerRequired => 403,
        ApiError::WriteDenied => 403,
        ApiError::ReadDenied => 403,
        ApiError::StoreUnavailable => 500,
    }
}

/// Maps an error to the HTTP status code the transport layer must answer with.
pub fn status_code(e: &ApiError) -> (code: u16)
    ensures
        code == spec_status_code(*e),
{
    match e {
        ApiError::MissingCredential => 401,
        ApiError::UnknownUser => 401,
        ApiError::NotFound => 404,
        ApiError::NotInvited => 403,
        ApiError::OwnerRequired => 403,
        ApiError::WriteDenied => 403,
        ApiError::ReadDenied => 403,
        ApiError::StoreUnavailable => 500,
    }
}

} // verus!
