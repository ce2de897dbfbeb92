//! The resource services: every endpoint's decision logic, over a store,
//! an optional authorization header and the request's parameters.
//!
//! Each entry point follows one skeleton: establish the caller's identity,
//! resolve the target resource, ask the permission evaluator, and only
//! then read or mutate the store. Identity failures, a missing resource
//! and every refusal are explicit return values; no branch defaults to
//! allowing.
//!
//! One disclosure policy is applied uniformly: a board or note that does
//! not exist is reported as `NotFound` to any caller whose identity
//! resolves, before capabilities are examined, while an existing resource
//! the caller may not touch yields the specific refusal. Existence of a
//! resource is therefore never hidden behind an authorization error.

use crate::auth::{
    authorize_spec, check_access, check_access_spec, owner_only, read_only, write_only, Required,
};
use crate::errors::ApiError;
use crate::identity::{header_digest, no_user_matches, resolve, resolved_ok};
use crate::models::{Board, NewBoard, NewNote, Note, Permission, User};
use crate::store::{
    authored_note_ids, board_by_id, board_grants, board_note_ids, grant_for, has_board, has_user,
    invited_user_ids, keep_grant_off_board, keep_note_off_board, keep_other_board, note_by_id,
    owned_board_ids, user_by_id, user_grants, user_ids_of, viewable_ids, Store,
};
use vstd::prelude::*;

verus! {

/// Whether an identifier-list result equals its mathematical outcome.
pub open spec fn ids_result_matches(r: Result<Vec<i32>, ApiError>, s: Result<Seq<i32>, ApiError>) -> bool {
    match s {
        Ok(ids) => r is Ok && r->Ok_0@ == ids,
        Err(e) => r == Err::<Vec<i32>, ApiError>(e),
    }
}

/// Whether a grant-list result equals its mathematical outcome.
pub open spec fn grants_result_matches(
    r: Result<Vec<Permission>, ApiError>,
    s: Result<Seq<Permission>, ApiError>,
) -> bool {
    match s {
        Ok(gs) => r is Ok && r->Ok_0@ == gs,
        Err(e) => r == Err::<Vec<Permission>, ApiError>(e),
    }
}

/// Returns the caller's own user record.
pub fn user(store: &Store, header: Option<&str>) -> (r: Result<User, ApiError>)
    ensures
        match header {
            None => r == Err::<User, ApiError>(ApiError::MissingCredential),
            Some(h) => {
                ||| (no_user_matches(*store, h@) && r == Err::<User, ApiError>(
                    ApiError::UnknownUser,
                ))
                ||| (exists|u: User| #[trigger] resolved_ok(*store, h@, u) && r == Ok::<
                    User,
                    ApiError,
                >(u))
            },
        },
{
    match resolve(store, header) {
        Ok(u) => Ok(u),
        Err(e) => Err(e),
    }
}

/// Lists the identifiers of the boards the caller may view: the boards
/// the caller owns and the boards the caller was invited to.
pub fn viewable_boards(store: &Store, header: Option<&str>) -> (r: Result<Vec<i32>, ApiError>)
    requires
        store.wf(),
    ensures
        match header {
            None => r == Err::<Vec<i32>, ApiError>(ApiError::MissingCredential),
            Some(h) => {
                ||| (no_user_matches(*store, h@) && r == Err::<Vec<i32>, ApiError>(
                    ApiError::UnknownUser,
                ))
                ||| (exists|u: User| #[trigger] resolved_ok(*store, h@, u) && ids_result_matches(
                    r,
                    Ok(viewable_ids(store.boards@, store.permissions@, u.id)),
                ))
            },
        },
{
    let u = match resolve(store, header) {
        Ok(u) => u,
        Err(e) => {
            return Err(e);
        },
    };
    Ok(store.viewable_board_ids(u.id))
}

/// The outcome of asking for one board: the board if it exists and the
/// caller may read it.
pub open spec fn specific_board_spec(s: Store, u: User, board_uid: i32) -> Result<Board, ApiError> {
    match board_by_id(s.boards@, board_uid) {
        None => Err(ApiError::NotFound),
        Some(b) => match authorize_spec(
            u.id,
            b.user_id,
            grant_for(s.permissions@, u.id, board_uid),
            read_only(),
        ) {
            Ok(_) => Ok(b),
            Err(e) => Err(e),
        },
    }
}

/// Returns one board, to a caller with read capability on it.
pub fn specific_board(store: &Store, header: Option<&str>, board_uid: i32) -> (r: Result<
    Board,
    ApiError,
>)
    requires
        store.wf(),
    ensures
        match header {
            None => r == Err::<Board, ApiError>(ApiError::MissingCredential),
            Some(h) => {
                ||| (no_user_matches(*store, h@) && r == Err::<Board, ApiError>(
                    ApiError::UnknownUser,
                ))
                ||| (exists|u: User| #[trigger] resolved_ok(*store, h@, u) && r
                    == specific_board_spec(*store, u, board_uid))
            },
        },
{
    let u = match resolve(store, header) {
        Ok(u) => u,
        Err(e) => {
            return Err(e);
        },
    };
    let board = match store.get_board(board_uid) {
        Some(b) => b.clone(),
        None => {
            return Err(ApiError::NotFound);
        },
    };
    match check_access(
        store,
        &u,
        board_uid,
        Required { need_owner: false, need_read: true, need_write: false },
    ) {
        Ok(_) => Ok(board),
        Err(e) => Err(e),
    }
}

/// The outcome of listing a board's grants: every grant on the board, to
/// a caller with read capability on it.
pub open spec fn all_permissions_spec(s: Store, u: User, board_uid: i32) -> Result<
    Seq<Permission>,
    ApiError,
> {
    match check_access_spec(s, u, board_uid, read_only()) {
        Ok(_) => Ok(board_grants(s.permissions@, board_uid)),
        Err(e) => Err(e),
    }
}

/// Lists the grants on a board, to a caller with read capability on it.
pub fn all_permissions(store: &Store, header: Option<&str>, board_uid: i32) -> (r: Result<
    Vec<Permission>,
    ApiError,
>)
    requires
        store.wf(),
    ensures
        match header {
            None => r == Err::<Vec<Permission>, ApiError>(ApiError::MissingCredential),
            Some(h) => {
                ||| (no_user_matches(*store, h@) && r == Err::<Vec<Permission>, ApiError>(
                    ApiError::UnknownUser,
                ))
                ||| (exists|u: User| #[trigger] resolved_ok(*store, h@, u)
                    && grants_result_matches(r, all_permissions_spec(*store, u, board_uid)))
            },
        },
{
    let u = match resolve(store, header) {
        Ok(u) => u,
        Err(e) => {
            return Err(e);
        },
    };
    match check_access(
        store,
        &u,
        board_uid,
        Required { need_owner: false, need_read: true, need_write: false },
    ) {
        Ok(_) => Ok(store.list_permissions_for_board(board_uid)),
        Err(e) => Err(e),
    }
}

/// The outcome of listing a board's notes: the identifier of every note
/// on the board, to a caller with read capability on it.
pub open spec fn all_notes_spec(s: Store, u: User, board_uid: i32) -> Result<Seq<i32>, ApiError> {
    match check_access_spec(s, u, board_uid, read_only()) {
        Ok(_) => Ok(board_note_ids(s.notes@, board_uid)),
        Err(e) => Err(e),
    }
}

/// Lists the identifiers of a board's notes, to a caller with read
/// capability on it.
pub fn all_notes(store: &Store, header: Option<&str>, board_uid: i32) -> (r: Result<
    Vec<i32>,
    ApiError,
>)
    requires
        store.wf(),
    ensures
        match header {
            None => r == Err::<Vec<i32>, ApiError>(ApiError::MissingCredential),
            Some(h) => {
                ||| (no_user_matches(*store, h@) && r == Err::<Vec<i32>, ApiError>(
                    ApiError::UnknownUser,
                ))
                ||| (exists|u: User| #[trigger] resolved_ok(*store, h@, u) && ids_result_matches(
                    r,
                    all_notes_spec(*store, u, board_uid),
                ))
            },
        },
{
    let u = match resolve(store, header) {
        Ok(u) => u,
        Err(e) => {
            return Err(e);
        },
    };
    match check_access(
        store,
        &u,
        board_uid,
        Required { need_owner: false, need_read: true, need_write: false },
    ) {
        Ok(_) => Ok(store.list_note_ids_for_board(board_uid)),
        Err(e) => Err(e),
    }
}

/// The outcome of listing a board's members: the identifier of every
/// invited user, to a caller with read capability on the board.
pub open spec fn all_users_spec(s: Store, u: User, board_uid: i32) -> Result<Seq<i32>, ApiError> {
    match check_access_spec(s, u, board_uid, read_only()) {
        Ok(_) => Ok(invited_user_ids(s.permissions@, board_uid)),
        Err(e) => Err(e),
    }
}

/// Lists the identifiers of a board's invited users, to a caller with
/// read capability on it.
pub fn all_users(store: &Store, header: Option<&str>, board_uid: i32) -> (r: Result<
    Vec<i32>,
    ApiError,
>)
    requires
        store.wf(),
    ensures
        match header {
            None => r == Err::<Vec<i32>, ApiError>(ApiError::MissingCredential),
            Some(h) => {
                ||| (no_user_matches(*store, h@) && r == Err::<Vec<i32>, ApiError>(
                    ApiError::UnknownUser,
                ))
                ||| (exists|u: User| #[trigger] resolved_ok(*store, h@, u) && ids_result_matches(
                    r,
                    all_users_spec(*store, u, board_uid),
                ))
            },
        },
{
    let u = match resolve(store, header) {
        Ok(u) => u,
        Err(e) => {
            return Err(e);
        },
    };
    match check_access(
        store,
        &u,
        board_uid,
        Required { need_owner: false, need_read: true, need_write: false },
    ) {
        Ok(_) => Ok(store.list_invited_user_ids(board_uid)),
        Err(e) => Err(e),
    }
}

/// The outcome of asking for one note: the note if it exists and the
/// caller may read the board it sits on.
pub open spec fn specific_note_spec(s: Store, u: User, note_id: i32) -> Result<Note, ApiError> {
    match note_by_id(s.notes@, note_id) {
        None => Err(ApiError::NotFound),
        Some(n) => match check_access_spec(s, u, n.board_id, read_only()) {
            Ok(_) => Ok(n),
            Err(e) => Err(e),
        },
    }
}

/// Returns one note, to a caller with read capability on its board.
pub fn specific_note(store: &Store, header: Option<&str>, note_id: i32) -> (r: Result<
    Note,
    ApiError,
>)
    requires
        store.wf(),
    ensures
        match header {
            None => r == Err::<Note, ApiError>(ApiError::MissingCredential),
            Some(h) => {
                ||| (no_user_matches(*store, h@) && r == Err::<Note, ApiError>(
                    ApiError::UnknownUser,
                ))
                ||| (exists|u: User| #[trigger] resolved_ok(*store, h@, u) && r
                    == specific_note_spec(*store, u, note_id))
            },
        },
{
    let u = match resolve(store, header) {
        Ok(u) => u,
        Err(e) => {
            return Err(e);
        },
    };
    let note = match store.get_note(note_id) {
        Some(n) => n.clone(),
        None => {
            return Err(ApiError::NotFound);
        },
    };
    match check_access(
        store,
        &u,
        note.board_id,
        Required { need_owner: false, need_read: true, need_write: false },
    ) {
        Ok(_) => Ok(note),
        Err(e) => Err(e),
    }
}

/// Lists the identifiers of the boards owned by the user `user_uid`, to
/// that user alone: the presented token must belong to them.
pub fn boards_from_user_with_id(store: &Store, header: Option<&str>, user_uid: i32) -> (r: Result<
    Vec<i32>,
    ApiError,
>)
    requires
        store.wf(),
    ensures
        match header {
            None => r == Err::<Vec<i32>, ApiError>(ApiError::MissingCredential),
            Some(h) => match user_by_id(store.users@, user_uid) {
                None => r == Err::<Vec<i32>, ApiError>(ApiError::NotFound),
                Some(tu) => if tu.oauth_token@ != header_digest(h@) {
                    r == Err::<Vec<i32>, ApiError>(ApiError::UnknownUser)
                } else {
                    ids_result_matches(r, Ok(owned_board_ids(store.boards@, user_uid)))
                },
            },
        },
{
    let token = match crate::identity::extract_bearer(header) {
        Ok(t) => t,
        Err(e) => {
            return Err(e);
        },
    };
    let tu = match store.get_user(user_uid) {
        Some(tu) => tu,
        None => {
            return Err(ApiError::NotFound);
        },
    };
    match crate::identity::continue_if_authenticated(tu, token) {
        Ok(_) => Ok(store.list_board_ids_owned_by(user_uid)),
        Err(e) => Err(e),
    }
}

/// Lists the identifiers of the notes authored by the user `user_uid`,
/// to that user alone.
pub fn notes_from_user_with_id(store: &Store, header: Option<&str>, user_uid: i32) -> (r: Result<
    Vec<i32>,
    ApiError,
>)
    requires
        store.wf(),
    ensures
        match header {
            None => r == Err::<Vec<i32>, ApiError>(ApiError::MissingCredential),
            Some(h) => match user_by_id(store.users@, user_uid) {
                None => r == Err::<Vec<i32>, ApiError>(ApiError::NotFound),
                Some(tu) => if tu.oauth_token@ != header_digest(h@) {
                    r == Err::<Vec<i32>, ApiError>(ApiError::UnknownUser)
                } else {
                    ids_result_matches(r, Ok(authored_note_ids(store.notes@, user_uid)))
                },
            },
        },
{
    let token = match crate::identity::extract_bearer(header) {
        Ok(t) => t,
        Err(e) => {
            return Err(e);
        },
    };
    let tu = match store.get_user(user_uid) {
        Some(tu) => tu,
        None => {
            return Err(ApiError::NotFound);
        },
    };
    match crate::identity::continue_if_authenticated(tu, token) {
        Ok(_) => Ok(store.list_note_ids_authored_by(user_uid)),
        Err(e) => Err(e),
    }
}

/// Lists the grants held by the user `user_uid`, to that user alone.
pub fn permissions_for_user_with_id(store: &Store, header: Option<&str>, user_uid: i32) -> (r:
    Result<Vec<Permission>, ApiError>)
    requires
        store.wf(),
    ensures
        match header {
            None => r == Err::<Vec<Permission>, ApiError>(ApiError::MissingCredential),
            Some(h) => match user_by_id(store.users@, user_uid) {
                None => r == Err::<Vec<Permission>, ApiError>(ApiError::NotFound),
                Some(tu) => if tu.oauth_token@ != header_digest(h@) {
                    r == Err::<Vec<Permission>, ApiError>(ApiError::UnknownUser)
                } else {
                    grants_result_matches(r, Ok(user_grants(store.permissions@, user_uid)))
                },
            },
        },
{
    let token = match crate::identity::extract_bearer(header) {
        Ok(t) => t,
        Err(e) => {
            return Err(e);
        },
    };
    let tu = match store.get_user(user_uid) {
        Some(tu) => tu,
        None => {
            return Err(ApiError::NotFound);
        },
    };
    match crate::identity::continue_if_authenticated(tu, token) {
        Ok(_) => Ok(store.list_permissions_for_user(user_uid)),
        Err(e) => Err(e),
    }
}

/// Returns the grant of the user `user_uid` on one board, to that user
/// alone; a pair without a grant is `NotFound`.
pub fn permission_for_user_with_board(
    store: &Store,
    header: Option<&str>,
    user_uid: i32,
    board_uid: i32,
) -> (r: Result<Permission, ApiError>)
    requires
        store.wf(),
    ensures
        match header {
            None => r == Err::<Permission, ApiError>(ApiError::MissingCredential),
            Some(h) => match user_by_id(store.users@, user_uid) {
                None => r == Err::<Permission, ApiError>(ApiError::NotFound),
                Some(tu) => if tu.oauth_token@ != header_digest(h@) {
                    r == Err::<Permission, ApiError>(ApiError::UnknownUser)
                } else {
                    match grant_for(store.permissions@, user_uid, board_uid) {
                        Some(g) => r == Ok::<Permission, ApiError>(g),
                        None => r == Err::<Permission, ApiError>(ApiError::NotFound),
                    }
                },
            },
        },
{
    let token = match crate::identity::extract_bearer(header) {
        Ok(t) => t,
        Err(e) => {
            return Err(e);
        },
    };
    let tu = match store.get_user(user_uid) {
        Some(tu) => tu,
        None => {
            return Err(ApiError::NotFound);
        },
    };
    match crate::identity::continue_if_authenticated(tu, token) {
        Ok(_) => match store.get_permission(user_uid, board_uid) {
            Some(g) => Ok(g),
            None => Err(ApiError::NotFound),
        },
        Err(e) => Err(e),
    }
}

/// Returns the user record with identifier `user_uid`, to that user
/// alone.
pub fn user_with_id(store: &Store, header: Option<&str>, user_uid: i32) -> (r: Result<
    User,
    ApiError,
>)
    requires
        store.wf(),
    ensures
        match header {
            None => r == Err::<User, ApiError>(ApiError::MissingCredential),
            Some(h) => match user_by_id(store.users@, user_uid) {
                None => r == Err::<User, ApiError>(ApiError::NotFound),
                Some(tu) => if tu.oauth_token@ != header_digest(h@) {
                    r == Err::<User, ApiError>(ApiError::UnknownUser)
                } else {
                    r == Ok::<User, ApiError>(tu)
                },
            },
        },
{
    let token = match crate::identity::extract_bearer(header) {
        Ok(t) => t,
        Err(e) => {
            return Err(e);
        },
    };
    let tu = match store.get_user(user_uid) {
        Some(tu) => tu,
        None => {
            return Err(ApiError::NotFound);
        },
    };
    match crate::identity::continue_if_authenticated(tu, token) {
        Ok(_) => Ok(tu.clone()),
        Err(e) => Err(e),
    }
}

/// Lists every registered user's identifier; the one read that needs no
/// authentication.
pub fn all_user_ids(store: &Store) -> (r: Result<Vec<i32>, ApiError>)
    ensures
        ids_result_matches(r, Ok(user_ids_of(store.users@))),
{
    Ok(store.list_user_ids())
}

/// What creating a board does to the store: the board is appended under
/// the next free identifier, and with it the owner's full-rights grant.
pub open spec fn board_created(pre: Store, post: Store, nb: NewBoard, b: Board) -> bool {
    &&& b == (Board {
        id: pre.next_board_id,
        user_id: nb.user_id,
        title: nb.title,
        visibility: nb.visibility,
    })
    &&& post.boards@ == pre.boards@.push(b)
    &&& post.permissions@ == pre.permissions@.push(
        Permission {
            id: pre.next_permission_id,
            user_id: nb.user_id,
            board_id: b.id,
            read: true,
            write: true,
        },
    )
    &&& post.next_board_id == pre.next_board_id + 1
    &&& post.next_permission_id == pre.next_permission_id + 1
    &&& post.users@ == pre.users@
    &&& post.notes@ == pre.notes@
    &&& post.next_user_id == pre.next_user_id
    &&& post.next_note_id == pre.next_note_id
}

/// Creates a board for the user named in the request. The caller must be
/// that user: the request is refused unless the presented token's digest
/// matches the named user's stored credential. The creator becomes the
/// owner and atomically receives a full-rights grant.
pub fn new_board(store: &mut Store, header: Option<&str>, nb: NewBoard) -> (r: Result<
    Board,
    ApiError,
>)
    requires
        old(store).wf(),
        old(store).next_board_id < i32::MAX,
        old(store).next_permission_id < i32::MAX,
    ensures
        final(store).wf(),
        match header {
            None => r == Err::<Board, ApiError>(ApiError::MissingCredential) && *final(store)
                == *old(store),
            Some(h) => match user_by_id(old(store).users@, nb.user_id) {
                None => r == Err::<Board, ApiError>(ApiError::NotFound) && *final(store) == *old(
                    store,
                ),
                Some(tu) => if tu.oauth_token@ != header_digest(h@) {
                    r == Err::<Board, ApiError>(ApiError::UnknownUser) && *final(store) == *old(
                        store,
                    )
                } else {
                    r is Ok && board_created(*old(store), *final(store), nb, r->Ok_0)
                },
            },
        },
{
    let token = match crate::identity::extract_bearer(header) {
        Ok(t) => t,
        Err(e) => {
            return Err(e);
        },
    };
    let owner_id = {
        let tu = match store.get_user(nb.user_id) {
            Some(tu) => tu,
            None => {
                return Err(ApiError::NotFound);
            },
        };
        match crate::identity::continue_if_authenticated(tu, token) {
            Ok(_) => tu.id,
            Err(e) => {
                return Err(e);
            },
        }
    };
    proof {
        let m = choose|m: int|
            0 <= m < store.users@.len() && store.users@[m] == user_by_id(
                store.users@,
                nb.user_id,
            )->0;
        assert(has_user(store.users@, nb.user_id));
    }
    let NewBoard { user_id, title, visibility } = nb;
    let b = store.create_board(user_id, title, visibility);
    Ok(b)
}

/// The board that a partial update yields: present fields win, absent
/// ones keep the old value — except the owner, which never changes.
pub open spec fn merged_board(ub: crate::models::UpdateBoard, b0: Board) -> Board {
    Board {
        id: b0.id,
        user_id: b0.user_id,
        title: match ub.title {
            Some(t) => t,
            None => b0.title,
        },
        visibility: match ub.visibility {
            Some(v) => v,
            None => b0.visibility,
        },
    }
}

/// The outcome of updating a board, for a resolved caller `u`.
pub open spec fn update_board_outcome(
    pre: Store,
    post: Store,
    u: User,
    board_uid: i32,
    ub: crate::models::UpdateBoard,
    r: Result<Board, ApiError>,
) -> bool {
    match board_by_id(pre.boards@, board_uid) {
        None => r == Err::<Board, ApiError>(ApiError::NotFound) && post == pre,
        Some(b0) => match authorize_spec(
            u.id,
            b0.user_id,
            grant_for(pre.permissions@, u.id, board_uid),
            owner_only(),
        ) {
            Err(e) => r == Err::<Board, ApiError>(e) && post == pre,
            Ok(_) => {
                let m = merged_board(ub, b0);
                &&& r == Ok::<Board, ApiError>(m)
                &&& exists|i: int|
                    {
                        &&& 0 <= i < pre.boards@.len()
                        &&& pre.boards@[i].id == board_uid
                        &&& post.boards@ == pre.boards@.update(i, m)
                    }
                &&& post.users@ == pre.users@
                &&& post.notes@ == pre.notes@
                &&& post.permissions@ == pre.permissions@
                &&& post.next_user_id == pre.next_user_id
                &&& post.next_board_id == pre.next_board_id
                &&& post.next_note_id == pre.next_note_id
                &&& post.next_permission_id == pre.next_permission_id
            },
        },
    }
}

/// Updates a board's title and visibility, to its owner alone; the
/// board's owner never changes.
pub fn update_specific_board(
    store: &mut Store,
    header: Option<&str>,
    board_uid: i32,
    ub: crate::models::UpdateBoard,
) -> (r: Result<Board, ApiError>)
    requires
        old(store).wf(),
    ensures
        final(store).wf(),
        match header {
            None => r == Err::<Board, ApiError>(ApiError::MissingCredential) && *final(store)
                == *old(store),
            Some(h) => {
                ||| (no_user_matches(*old(store), h@) && r == Err::<Board, ApiError>(
                    ApiError::UnknownUser,
                ) && *final(store) == *old(store))
                ||| (exists|u: User| #[trigger] resolved_ok(*old(store), h@, u)
                    && update_board_outcome(*old(store), *final(store), u, board_uid, ub, r))
            },
        },
{
    let u = match resolve(store, header) {
        Ok(u) => u,
        Err(e) => {
            return Err(e);
        },
    };
    let b0 = match store.get_board(board_uid) {
        Some(b) => b.clone(),
        None => {
            return Err(ApiError::NotFound);
        },
    };
    match check_access(
        store,
        &u,
        board_uid,
        Required { need_owner: true, need_read: false, need_write: false },
    ) {
        Ok(_) => {},
        Err(e) => {
            return Err(e);
        },
    }
    let owner = b0.user_id;
    let mut ubm = ub;
    let merged = ubm.new_board(b0);
    let fixed = Board {
        id: merged.id,
        user_id: owner,
        title: merged.title,
        visibility: merged.visibility,
    };
    let out = fixed.clone();
    proof {
        let m = choose|m: int|
            0 <= m < store.boards@.len() && store.boards@[m] == board_by_id(
                store.boards@,
                board_uid,
            )->0;
        assert(has_board(store.boards@, fixed.id));
        assert(has_user(store.users@, fixed.user_id));
    }
    store.update_board(fixed);
    proof {
        let h = header->0;
        let pre = *old(store);
        assert(resolved_ok(pre, h@, u));
        let b0g = board_by_id(pre.boards@, board_uid);
        assert(b0g is Some);
        let b0v = b0g->0;
        assert(b0v.id == board_uid);
        assert(authorize_spec(
            u.id,
            b0v.user_id,
            grant_for(pre.permissions@, u.id, board_uid),
            owner_only(),
        ) is Ok);
        assert(out == merged_board(ub, b0v));
        assert(update_board_outcome(pre, *store, u, board_uid, ub, Ok(out)));
    }
    Ok(out)
}

/// The outcome of deleting a board, for a resolved caller `u`: to the
/// owner alone, and then the board goes together with every note and
/// every grant on it.
pub open spec fn delete_board_outcome(
    pre: Store,
    post: Store,
    u: User,
    board_uid: i32,
    r: Result<(), ApiError>,
) -> bool {
    match board_by_id(pre.boards@, board_uid) {
        None => r == Err::<(), ApiError>(ApiError::NotFound) && post == pre,
        Some(b0) => match authorize_spec(
            u.id,
            b0.user_id,
            grant_for(pre.permissions@, u.id, board_uid),
            owner_only(),
        ) {
            Err(e) => r == Err::<(), ApiError>(e) && post == pre,
            Ok(_) => {
                &&& r is Ok
                &&& post.boards@ == pre.boards@.filter_map(keep_other_board(board_uid))
                &&& post.notes@ == pre.notes@.filter_map(keep_note_off_board(board_uid))
                &&& post.permissions@ == pre.permissions@.filter_map(
                    keep_grant_off_board(board_uid),
                )
                &&& !has_board(post.boards@, board_uid)
                &&& forall|i: int|
                    0 <= i < post.notes@.len() ==> (#[trigger] post.notes@[i]).board_id
                        != board_uid
                &&& forall|i: int|
                    0 <= i < post.permissions@.len() ==> (#[trigger] post.permissions@[i]).board_id
                        != board_uid
                &&& post.users@ == pre.users@
                &&& post.next_user_id == pre.next_user_id
                &&& post.next_board_id == pre.next_board_id
                &&& post.next_note_id == pre.next_note_id
                &&& post.next_permission_id == pre.next_permission_id
            },
        },
    }
}

/// Deletes a board, to its owner alone; its notes and grants go with it
/// in the same step, leaving no orphan rows.
pub fn delete_specific_board(store: &mut Store, header: Option<&str>, board_uid: i32) -> (r:
    Result<(), ApiError>)
    requires
        old(store).wf(),
    ensures
        final(store).wf(),
        match header {
            None => r == Err::<(), ApiError>(ApiError::MissingCredential) && *final(store) == *old(
                store,
            ),
            Some(h) => {
                ||| (no_user_matches(*old(store), h@) && r == Err::<(), ApiError>(
                    ApiError::UnknownUser,
                ) && *final(store) == *old(store))
                ||| (exists|u: User| #[trigger] resolved_ok(*old(store), h@, u)
                    && delete_board_outcome(*old(store), *final(store), u, board_uid, r))
            },
        },
{
    let u = match resolve(store, header) {
        Ok(u) => u,
        Err(e) => {
            return Err(e);
        },
    };
    match check_access(
        store,
        &u,
        board_uid,
        Required { need_owner: true, need_read: false, need_write: false },
    ) {
        Ok(_) => {},
        Err(e) => {
            return Err(e);
        },
    }
    store.delete_board_cascade(board_uid);
    Ok(())
}

/// What inserting a note does to the store: the note is appended under
/// the next free identifier.
pub open spec fn note_created(pre: Store, post: Store, nn: NewNote, n: Note) -> bool {
    &&& n == (Note {
        id: pre.next_note_id,
        user_id: nn.user_id,
        board_id: nn.board_id,
        title: nn.title,
        body: nn.body,
    })
    &&& post.notes@ == pre.notes@.push(n)
    &&& post.next_note_id == pre.next_note_id + 1
    &&& post.users@ == pre.users@
    &&& post.boards@ == pre.boards@
    &&& post.permissions@ == pre.permissions@
    &&& post.next_user_id == pre.next_user_id
    &&& post.next_board_id == pre.next_board_id
    &&& post.next_permission_id == pre.next_permission_id
}

/// The outcome of creating a note, for a resolved caller `u`: the caller
/// must be the note's author and hold the write capability on the target
/// board.
pub open spec fn new_note_outcome(
    pre: Store,
    post: Store,
    u: User,
    nn: NewNote,
    r: Result<Note, ApiError>,
) -> bool {
    if nn.user_id != u.id {
        r == Err::<Note, ApiError>(ApiError::UnknownUser) && post == pre
    } else {
        match board_by_id(pre.boards@, nn.board_id) {
            None => r == Err::<Note, ApiError>(ApiError::NotFound) && post == pre,
            Some(b) => match authorize_spec(
                u.id,
                b.user_id,
                grant_for(pre.permissions@, u.id, nn.board_id),
                write_only(),
            ) {
                Err(e) => r == Err::<Note, ApiError>(e) && post == pre,
                Ok(_) => r is Ok && note_created(pre, post, nn, r->Ok_0),
            },
        }
    }
}

/// Creates a note on a board, for a caller who authored it and holds the
/// write capability on that board.
pub fn new_note(store: &mut Store, header: Option<&str>, nn: NewNote) -> (r: Result<Note, ApiError>)
    requires
        old(store).wf(),
        old(store).next_note_id < i32::MAX,
    ensures
        final(store).wf(),
        match header {
            None => r == Err::<Note, ApiError>(ApiError::MissingCredential) && *final(store)
                == *old(store),
            Some(h) => {
                ||| (no_user_matches(*old(store), h@) && r == Err::<Note, ApiError>(
                    ApiError::UnknownUser,
                ) && *final(store) == *old(store))
                ||| (exists|u: User| #[trigger] resolved_ok(*old(store), h@, u)
                    && new_note_outcome(*old(store), *final(store), u, nn, r))
            },
        },
{
    let u = match resolve(store, header) {
        Ok(u) => u,
        Err(e) => {
            return Err(e);
        },
    };
    if nn.user_id != u.id {
        return Err(ApiError::UnknownUser);
    }
    match store.get_board(nn.board_id) {
        Some(_) => {},
        None => {
            return Err(ApiError::NotFound);
        },
    }
    match check_access(
        store,
        &u,
        nn.board_id,
        Required { need_owner: false, need_read: false, need_write: true },
    ) {
        Ok(_) => {},
        Err(e) => {
            return Err(e);
        },
    }
    proof {
        let m = choose|m: int|
            0 <= m < store.boards@.len() && store.boards@[m] == board_by_id(
                store.boards@,
                nn.board_id,
            )->0;
        assert(has_board(store.boards@, nn.board_id));
        let w = choose|w: int| 0 <= w < store.users@.len() && store.users@[w] == u;
        assert(has_user(store.users@, nn.user_id));
    }
    let n = store.insert_note(nn);
    Ok(n)
}

/// The note that a partial update yields: present fields win, absent
/// ones keep the old value; the identifier never changes.
pub open spec fn merged_note(un: crate::models::UpdateNote, n0: Note) -> Note {
    Note {
        id: n0.id,
        user_id: match un.user_id {
            Some(v) => v,
            None => n0.user_id,
        },
        board_id: match un.board_id {
            Some(v) => v,
            None => n0.board_id,
        },
        title: match un.title {
            Some(t) => t,
            None => n0.title,
        },
        body: match un.body {
            Some(b) => b,
            None => n0.body,
        },
    }
}

/// What replacing one note does to the store: the row under `note_id` is
/// exchanged for `m`, and everything else stands.
pub open spec fn note_replaced(
    pre: Store,
    post: Store,
    note_id: i32,
    m: Note,
    r: Result<Note, ApiError>,
) -> bool {
    &&& r == Ok::<Note, ApiError>(m)
    &&& exists|i: int|
        {
            &&& 0 <= i < pre.notes@.len()
            &&& pre.notes@[i].id == note_id
            &&& post.notes@ == pre.notes@.update(i, m)
        }
    &&& post.users@ == pre.users@
    &&& post.boards@ == pre.boards@
    &&& post.permissions@ == pre.permissions@
    &&& post.next_user_id == pre.next_user_id
    &&& post.next_board_id == pre.next_board_id
    &&& post.next_note_id == pre.next_note_id
    &&& post.next_permission_id == pre.next_permission_id
}

/// The outcome of updating a note, for a resolved caller `u`: the caller
/// must hold the write capability on the note's current board, and the
/// merged note's board and author must exist.
pub open spec fn update_note_outcome(
    pre: Store,
    post: Store,
    u: User,
    note_id: i32,
    un: crate::models::UpdateNote,
    r: Result<Note, ApiError>,
) -> bool {
    match note_by_id(pre.notes@, note_id) {
        None => r == Err::<Note, ApiError>(ApiError::NotFound) && post == pre,
        Some(n0) => match check_access_spec(pre, u, n0.board_id, write_only()) {
            Err(e) => r == Err::<Note, ApiError>(e) && post == pre,
            Ok(_) => {
                let m = merged_note(un, n0);
                if !has_board(pre.boards@, m.board_id) || !has_user(pre.users@, m.user_id) {
                    r == Err::<Note, ApiError>(ApiError::NotFound) && post == pre
                } else {
                    note_replaced(pre, post, note_id, m, r)
                }
            },
        },
    }
}

/// Updates a note, to a caller with write capability on the note's
/// current board; a merged note referencing a missing board or author is
/// refused.
pub fn update_specific_note(
    store: &mut Store,
    header: Option<&str>,
    note_id: i32,
    un: crate::models::UpdateNote,
) -> (r: Result<Note, ApiError>)
    requires
        old(store).wf(),
    ensures
        final(store).wf(),
        match header {
            None => r == Err::<Note, ApiError>(ApiError::MissingCredential) && *final(store)
                == *old(store),
            Some(h) => {
                ||| (no_user_matches(*old(store), h@) && r == Err::<Note, ApiError>(
                    ApiError::UnknownUser,
                ) && *final(store) == *old(store))
                ||| (exists|u: User| #[trigger] resolved_ok(*old(store), h@, u)
                    && update_note_outcome(*old(store), *final(store), u, note_id, un, r))
            },
        },
{
    let u = match resolve(store, header) {
        Ok(u) => u,
        Err(e) => {
            return Err(e);
        },
    };
    let n0 = match store.get_note(note_id) {
        Some(n) => n.clone(),
        None => {
            return Err(ApiError::NotFound);
        },
    };
    match check_access(
        store,
        &u,
        n0.board_id,
        Required { need_owner: false, need_read: false, need_write: true },
    ) {
        Ok(_) => {},
        Err(e) => {
            return Err(e);
        },
    }
    let mut unm = un;
    let merged = unm.new_note(n0);
    if store.get_board(merged.board_id).is_none() {
        return Err(ApiError::NotFound);
    }
    if store.get_user(merged.user_id).is_none() {
        return Err(ApiError::NotFound);
    }
    let out = merged.clone();
    proof {
        let m = choose|m: int|
            0 <= m < store.boards@.len() && store.boards@[m] == board_by_id(
                store.boards@,
                merged.board_id,
            )->0;
        assert(has_board(store.boards@, merged.board_id));
        let w = choose|w: int|
            0 <= w < store.users@.len() && store.users@[w] == user_by_id(
                store.users@,
                merged.user_id,
            )->0;
        assert(has_user(store.users@, merged.user_id));
        let t = choose|t: int|
            0 <= t < store.notes@.len() && store.notes@[t] == note_by_id(store.notes@, note_id)->0;
        assert(store.notes@[t].id == merged.id);
    }
    store.update_note(merged);
    Ok(out)
}

/// What a completed login does to the store and answers the caller: the
/// user keyed by the provider identity now carries the digest of the
/// fresh token and the fresh email, everything else stands, and the
/// caller is handed the raw token back.
pub fn callback(store: &mut Store, oauth_id: i32, raw_token: &str, email: String) -> (r:
    crate::models::OwnedUser)
    requires
        old(store).wf(),
        old(store).next_user_id < i32::MAX,
    ensures
        final(store).wf(),
        r.oauth_id == oauth_id,
        r.oauth_token@ == raw_token@,
        r.email == email,
        final(store).boards@ == old(store).boards@,
        final(store).notes@ == old(store).notes@,
        final(store).permissions@ == old(store).permissions@,
        match crate::store::user_by_oauth(old(store).users@, oauth_id) {
            Some(u0) => {
                &&& final(store).next_user_id == old(store).next_user_id
                &&& exists|i: int|
                    {
                        &&& 0 <= i < old(store).users@.len()
                        &&& old(store).users@[i] == u0
                        &&& final(store).users@.len() == old(store).users@.len()
                        &&& final(store).users@[i].id == u0.id
                        &&& final(store).users@[i].oauth_id == oauth_id
                        &&& final(store).users@[i].oauth_token@ == crate::digest::token_digest(
                            raw_token@,
                        )
                        &&& final(store).users@[i].email == email
                        &&& forall|j: int|
                            0 <= j < old(store).users@.len() && j != i ==> final(store).users@[j]
                                == old(store).users@[j]
                    }
            },
            None => {
                &&& final(store).next_user_id == old(store).next_user_id + 1
                &&& final(store).users@.len() == old(store).users@.len() + 1
                &&& final(store).users@.last().id == old(store).next_user_id
                &&& final(store).users@.last().oauth_id == oauth_id
                &&& final(store).users@.last().oauth_token@ == crate::digest::token_digest(
                    raw_token@,
                )
                &&& final(store).users@.last().email == email
                &&& forall|j: int|
                    0 <= j < old(store).users@.len() ==> final(store).users@[j] == old(
                        store,
                    ).users@[j]
            },
        },
{
    let digest = crate::digest::hash_token(raw_token);
    let answered = crate::models::OwnedUser {
        oauth_id,
        oauth_token: raw_token.to_owned(),
        email: email.clone(),
    };
    store.upsert_user(crate::models::NewUser { oauth_id, oauth_token: digest, email });
    answered
}

} // verus!
