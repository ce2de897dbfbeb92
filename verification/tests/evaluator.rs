use notedly::auth::{authorize, Required};
use notedly::errors::{status_code, ApiError};
use notedly::models::{Board, Permission, User};

fn sample_user(id: i32) -> User {
    User {
        oauth_id: id,
        oauth_token: String::from("stored-digest"),
        email: String::from("user@example.com"),
        id,
    }
}

fn sample_board(id: i32, owner: i32) -> Board {
    Board { id, user_id: owner, title: String::from("Board"), visibility: 0 }
}

fn grant(user_id: i32, board_id: i32, read: bool, write: bool) -> Permission {
    Permission { id: 1, user_id, board_id, read, write }
}

const ALL_SETS: [(bool, bool, bool); 8] = [
    (false, false, false),
    (false, false, true),
    (false, true, false),
    (false, true, true),
    (true, false, false),
    (true, false, true),
    (true, true, false),
    (true, true, true),
];

#[test]
fn owner_always_allowed_for_any_capability_set() {
    let owner = sample_user(7);
    let board = sample_board(3, 7);
    for (need_owner, need_read, need_write) in ALL_SETS {
        let req = Required { need_owner, need_read, need_write };
        assert_eq!(authorize(&owner, &board, None, req), Ok(()));
        let g = grant(7, 3, false, false);
        assert_eq!(authorize(&owner, &board, Some(g), req), Ok(()));
    }
}

#[test]
fn stranger_without_grant_is_not_invited() {
    let user = sample_user(2);
    let board = sample_board(3, 7);
    for (need_owner, need_read, need_write) in ALL_SETS {
        let req = Required { need_owner, need_read, need_write };
        assert_eq!(authorize(&user, &board, None, req), Err(ApiError::NotInvited));
    }
}

#[test]
fn read_only_grant_reads_but_cannot_write() {
    let user = sample_user(2);
    let board = sample_board(3, 7);
    let g = grant(2, 3, true, false);
    let need_read = Required { need_owner: false, need_read: true, need_write: false };
    assert_eq!(authorize(&user, &board, Some(g), need_read), Ok(()));
    let need_write = Required { need_owner: false, need_read: false, need_write: true };
    assert_eq!(authorize(&user, &board, Some(g), need_write), Err(ApiError::WriteDenied));
    let need_both = Required { need_owner: false, need_read: true, need_write: true };
    assert_eq!(authorize(&user, &board, Some(g), need_both), Err(ApiError::WriteDenied));
}

#[test]
fn write_only_grant_writes_but_cannot_read() {
    let user = sample_user(2);
    let board = sample_board(3, 7);
    let g = grant(2, 3, false, true);
    let need_write = Required { need_owner: false, need_read: false, need_write: true };
    assert_eq!(authorize(&user, &board, Some(g), need_write), Ok(()));
    let need_read = Required { need_owner: false, need_read: true, need_write: false };
    assert_eq!(authorize(&user, &board, Some(g), need_read), Err(ApiError::ReadDenied));
    let need_both = Required { need_owner: false, need_read: true, need_write: true };
    assert_eq!(authorize(&user, &board, Some(g), need_both), Err(ApiError::ReadDenied));
}

#[test]
fn owner_requirement_never_succeeds_for_non_owner() {
    let user = sample_user(2);
    let board = sample_board(3, 7);
    let req = Required { need_owner: true, need_read: false, need_write: false };
    for (read, write) in [(false, false), (false, true), (true, false), (true, true)] {
        let g = grant(2, 3, read, write);
        assert_eq!(authorize(&user, &board, Some(g), req), Err(ApiError::OwnerRequired));
    }
    assert_eq!(authorize(&user, &board, None, req), Err(ApiError::NotInvited));
}

#[test]
fn empty_requirement_allows_any_invited_user() {
    let user = sample_user(2);
    let board = sample_board(3, 7);
    let req = Required { need_owner: false, need_read: false, need_write: false };
    let g = grant(2, 3, false, false);
    assert_eq!(authorize(&user, &board, Some(g), req), Ok(()));
    assert_eq!(authorize(&user, &board, None, req), Err(ApiError::NotInvited));
}

#[test]
fn repeated_identical_calls_return_identical_results() {
    let user = sample_user(2);
    let board = sample_board(3, 7);
    for (need_owner, need_read, need_write) in ALL_SETS {
        let req = Required { need_owner, need_read, need_write };
        for (read, write) in [(false, false), (false, true), (true, false), (true, true)] {
            let g = grant(2, 3, read, write);
            let first = authorize(&user, &board, Some(g), req);
            let second = authorize(&user, &board, Some(g), req);
            assert_eq!(first, second);
        }
        assert_eq!(
            authorize(&user, &board, None, req),
            authorize(&user, &board, None, req)
        );
    }
}

#[test]
fn status_codes_are_consistent() {
    assert_eq!(status_code(&ApiError::MissingCredential), 401);
    assert_eq!(status_code(&ApiError::UnknownUser), 401);
    assert_eq!(status_code(&ApiError::NotFound), 404);
    assert_eq!(status_code(&ApiError::NotInvited), 403);
    assert_eq!(status_code(&ApiError::OwnerRequired), 403);
    assert_eq!(status_code(&ApiError::WriteDenied), 403);
    assert_eq!(status_code(&ApiError::ReadDenied), 403);
    assert_eq!(status_code(&ApiError::StoreUnavailable), 500);
}
