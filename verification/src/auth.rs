//! The permission evaluator: given a caller, a board and a required
//! capability set, decide ALLOW or a specific refusal.
//!
//! The decision is evaluated in a fixed, short-circuiting order: ownership
//! first (an owner is allowed unconditionally), then existence of a grant
//! (no grant at all is `NotInvited`), then the owner-only, write and read
//! requirements in that order. It never defaults to ALLOW on an unhandled
//! branch, and it is a pure function of its inputs.

use crate::errors::ApiError;
use crate::models::{Board, Permission, User};
use crate::store::{board_by_id, grant_for, Store};
use vstd::prelude::*;

verus! {

/// The capability set an operation requires of the caller.
#[derive(Clone, Copy, Debug, PartialEq, Eq, Structural)]
pub struct Required {
    /// Only the board owner may proceed.
    pub need_owner: bool,
    /// The caller must hold the read capability.
    pub need_read: bool,
    /// The caller must hold the write capability.
    pub need_write: bool,
}

/// The requirement for viewing: read capability alone.
pub open spec fn read_only() -> Required {
    Required { need_owner: false, need_read: true, need_write: false }
}

/// The requirement for writing: write capability alone.
pub open spec fn write_only() -> Required {
    Required { need_owner: false, need_read: false, need_write: true }
}

/// The requirement for renaming or deleting a board: ownership alone.
pub open spec fn owner_only() -> Required {
    Required { need_owner: true, need_read: false, need_write: false }
}

/// The evaluator's decision, as a function of the caller, the board's
/// owner, the caller's grant on the board (if any) and the required set.
pub open spec fn authorize_spec(
    user_id: i32,
    owner_id: i32,
    grant: Option<Permission>,
    req: Required,
) -> Result<(), ApiError> {
    if user_id == owner_id {
        Ok(())
    } else {
        match grant {
            None => Err(ApiError::NotInvited),
            Some(g) => if req.need_owner {
                Err(ApiError::OwnerRequired)
            } else if req.need_write && !g.write {
                Err(ApiError::WriteDenied)
            } else if req.need_read && !g.read {
                Err(ApiError::ReadDenied)
            } else {
                Ok(())
            },
        }
    }
}

/// Decides whether `user` may act on `board` with the capabilities
/// `required`, given the user's grant on the board. The caller supplies
/// the resolved user, the resolved board and the grant; the decision reads
/// nothing else.
pub fn authorize(user: &User, board: &Board, grant: Option<Permission>, required: Required) -> (r:
    Result<(), ApiError>)
    ensures
        r == authorize_spec(user.id, board.user_id, grant, required),
{
    if user.id == board.user_id {
        return Ok(());
    }
    match grant {
        None => Err(ApiError::NotInvited),
        Some(g) => {
            if required.need_owner {
                Err(ApiError::OwnerRequired)
            } else if required.need_write && !g.write {
                Err(ApiError::WriteDenied)
            } else if required.need_read && !g.read {
                Err(ApiError::ReadDenied)
            } else {
                Ok(())
            }
        },
    }
}

/// The full check against the store: a vanished board is `NotFound`, and
/// otherwise the evaluator decides over the board's owner and the
/// caller's grant.
pub open spec fn check_access_spec(s: Store, user: User, board_uid: i32, required: Required) -> Result<
    (),
    ApiError,
> {
    match board_by_id(s.boards@, board_uid) {
        None => Err(ApiError::NotFound),
        Some(b) => authorize_spec(
            user.id,
            b.user_id,
            grant_for(s.permissions@, user.id, board_uid),
            required,
        ),
    }
}

/// Looks up the board and the caller's grant, then decides as
/// [`authorize`] does; a board absent from the store is `NotFound`.
pub fn check_access(store: &Store, user: &User, board_uid: i32, required: Required) -> (r: Result<
    (),
    ApiError,
>)
    requires
        store.wf(),
    ensures
        r == check_access_spec(*store, *user, board_uid, required),
{
    let board = match store.get_board(board_uid) {
        Some(b) => b,
        None => {
            return Err(ApiError::NotFound);
        },
    };
    let grant = store.get_permission(user.id, board_uid);
    authorize(user, board, grant, required)
}

/// Ownership always satisfies every capability: whatever is required and
/// whatever grant exists, a board's owner is allowed.
pub proof fn lemma_owner_always_allowed(
    user_id: i32,
    owner_id: i32,
    grant: Option<Permission>,
    req: Required,
)
    requires
        user_id == owner_id,
    ensures
        authorize_spec(user_id, owner_id, grant, req) == Ok::<(), ApiError>(()),
{
}

/// A non-owner with no grant on the board is refused as not invited,
/// whatever capabilities are required.
pub proof fn lemma_stranger_not_invited(user_id: i32, owner_id: i32, req: Required)
    requires
        user_id != owner_id,
    ensures
        authorize_spec(user_id, owner_id, None, req) == Err::<(), ApiError>(ApiError::NotInvited),
{
}

/// A read-only grant admits a pure read requirement, and any requirement
/// that includes write is refused as `WriteDenied`.
pub proof fn lemma_read_only_grant(
    user_id: i32,
    owner_id: i32,
    g: Permission,
    req_read: Required,
    req_write: Required,
)
    requires
        user_id != owner_id,
        g.read,
        !g.write,
        req_read == (Required { need_owner: false, need_read: true, need_write: false }),
        !req_write.need_owner,
        req_write.need_write,
    ensures
        authorize_spec(user_id, owner_id, Some(g), req_read) == Ok::<(), ApiError>(()),
        authorize_spec(user_id, owner_id, Some(g), req_write) == Err::<(), ApiError>(
            ApiError::WriteDenied,
        ),
{
}

/// A write-only grant admits a pure write requirement, and any requirement
/// that includes read (and not write, which is checked first) is refused
/// as `ReadDenied`.
pub proof fn lemma_write_only_grant(
    user_id: i32,
    owner_id: i32,
    g: Permission,
    req_write: Required,
    req_read: Required,
)
    requires
        user_id != owner_id,
        g.write,
        !g.read,
        req_write == (Required { need_owner: false, need_read: false, need_write: true }),
        !req_read.need_owner,
        req_read.need_read,
    ensures
        authorize_spec(user_id, owner_id, Some(g), req_write) == Ok::<(), ApiError>(()),
        authorize_spec(user_id, owner_id, Some(g), req_read) == Err::<(), ApiError>(
            ApiError::ReadDenied,
        ),
{
}

/// An owner-only requirement never admits a non-owner: however the grant
/// is flagged, the outcome is a refusal — `OwnerRequired` for an invited
/// user, `NotInvited` for a stranger.
pub proof fn lemma_owner_required(
    user_id: i32,
    owner_id: i32,
    grant: Option<Permission>,
    req: Required,
)
    requires
        user_id != owner_id,
        req.need_owner,
    ensures
        authorize_spec(user_id, owner_id, grant, req) is Err,
        grant is Some ==> authorize_spec(user_id, owner_id, grant, req) == Err::<(), ApiError>(
            ApiError::OwnerRequired,
        ),
        grant is None ==> authorize_spec(user_id, owner_id, grant, req) == Err::<(), ApiError>(
            ApiError::NotInvited,
        ),
{
}

/// An empty requirement admits any invited user: with all flags off, the
/// mere existence of a grant allows, whatever its capabilities.
pub proof fn lemma_no_requirement_allows_invited(
    user_id: i32,
    owner_id: i32,
    g: Permission,
    req: Required,
)
    requires
        user_id != owner_id,
        !req.need_owner,
        !req.need_read,
        !req.need_write,
    ensures
        authorize_spec(user_id, owner_id, Some(g), req) == Ok::<(), ApiError>(()),
{
}

/// Lifted to the store: the owner of an existing board passes the full
/// check for every capability set, with or without a grant row.
pub proof fn lemma_owner_full_access(s: Store, u: User, board_uid: i32, req: Required)
    requires
        board_by_id(s.boards@, board_uid) is Some,
        board_by_id(s.boards@, board_uid)->0.user_id == u.id,
    ensures
        check_access_spec(s, u, board_uid, req) == Ok::<(), ApiError>(()),
{
}

/// Lifted to the store: a user with no grant row on an existing board
/// who is not its owner is refused as not invited, whatever is required.
pub proof fn lemma_no_grant_not_invited(s: Store, u: User, board_uid: i32, req: Required)
    requires
        board_by_id(s.boards@, board_uid) is Some,
        board_by_id(s.boards@, board_uid)->0.user_id != u.id,
        grant_for(s.permissions@, u.id, board_uid) is None,
    ensures
        check_access_spec(s, u, board_uid, req) == Err::<(), ApiError>(ApiError::NotInvited),
{
}

/// Lifted to the store: a read-only grant row admits its holder to a
/// read check and is refused a write check on that board.
pub proof fn lemma_grant_read_only(s: Store, u: User, board_uid: i32)
    requires
        board_by_id(s.boards@, board_uid) is Some,
        board_by_id(s.boards@, board_uid)->0.user_id != u.id,
        grant_for(s.permissions@, u.id, board_uid) is Some,
        grant_for(s.permissions@, u.id, board_uid)->0.read,
        !grant_for(s.permissions@, u.id, board_uid)->0.write,
    ensures
        check_access_spec(s, u, board_uid, read_only()) == Ok::<(), ApiError>(()),
        check_access_spec(s, u, board_uid, write_only()) == Err::<(), ApiError>(
            ApiError::WriteDenied,
        ),
{
}

/// Lifted to the store: a write-only grant row admits its holder to a
/// write check and is refused a read check on that board.
pub proof fn lemma_grant_write_only(s: Store, u: User, board_uid: i32)
    requires
        board_by_id(s.boards@, board_uid) is Some,
        board_by_id(s.boards@, board_uid)->0.user_id != u.id,
        grant_for(s.permissions@, u.id, board_uid) is Some,
        grant_for(s.permissions@, u.id, board_uid)->0.write,
        !grant_for(s.permissions@, u.id, board_uid)->0.read,
    ensures
        check_access_spec(s, u, board_uid, write_only()) == Ok::<(), ApiError>(()),
        check_access_spec(s, u, board_uid, read_only()) == Err::<(), ApiError>(
            ApiError::ReadDenied,
        ),
{
}

/// Lifted to the store: an owner-only check on an existing board never
/// admits a non-owner, however their grant row is flagged.
pub proof fn lemma_owner_check_excludes_others(s: Store, u: User, board_uid: i32, req: Required)
    requires
        board_by_id(s.boards@, board_uid) is Some,
        board_by_id(s.boards@, board_uid)->0.user_id != u.id,
        req.need_owner,
    ensures
        check_access_spec(s, u, board_uid, req) is Err,
        check_access_spec(s, u, board_uid, req) != Err::<(), ApiError>(ApiError::NotFound),
{
}

/// The evaluation is pure: any two outcomes that both meet the
/// evaluator's contract on identical inputs are identical, so repeated
/// calls with unchanged inputs return unchanged results.
pub proof fn lemma_authorize_idempotent(
    user_id: i32,
    owner_id: i32,
    grant: Option<Permission>,
    req: Required,
    r1: Result<(), ApiError>,
    r2: Result<(), ApiError>,
)
    requires
        r1 == authorize_spec(user_id, owner_id, grant, req),
        r2 == authorize_spec(user_id, owner_id, grant, req),
    ensures
        r1 == r2,
{
}

} // verus!
