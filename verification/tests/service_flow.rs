use notedly::errors::{status_code, ApiError};
use notedly::models::{NewBoard, NewNote, NewPermission, UpdateBoard, UpdateNote};
use notedly::service;
use notedly::store::Store;

const TOKEN_A: &str = "token-of-user-a";
const TOKEN_B: &str = "token-of-user-b";
const HEADER_A: &str = "Bearer token-of-user-a";
const HEADER_B: &str = "Bearer token-of-user-b";

/// Two users; A owns the board "Trip Plans"; B holds a read-only grant.
fn trip_plans() -> (Store, i32, i32, i32) {
    let mut store = Store::new();
    service::callback(&mut store, 101, TOKEN_A, String::from("a@example.com"));
    service::callback(&mut store, 202, TOKEN_B, String::from("b@example.com"));
    let a_id = store.users[0].id;
    let b_id = store.users[1].id;
    let board = service::new_board(
        &mut store,
        Some(HEADER_A),
        NewBoard { user_id: a_id, title: String::from("Trip Plans"), visibility: 0 },
    )
    .expect("owner creates the board");
    store.insert_permission(NewPermission {
        user_id: b_id,
        board_id: board.id,
        read: true,
        write: false,
    });
    (store, a_id, b_id, board.id)
}

#[test]
fn creating_a_board_grants_the_owner_full_access() {
    let mut store = Store::new();
    service::callback(&mut store, 101, TOKEN_A, String::from("a@example.com"));
    let a_id = store.users[0].id;
    let board = service::new_board(
        &mut store,
        Some(HEADER_A),
        NewBoard { user_id: a_id, title: String::from("Trip Plans"), visibility: 0 },
    )
    .expect("owner creates the board");
    assert_eq!(board.user_id, a_id);
    assert_eq!(board.title, "Trip Plans");
    let grants = store.list_permissions_for_board(board.id);
    assert_eq!(grants.len(), 1);
    assert_eq!(grants[0].user_id, a_id);
    assert!(grants[0].read);
    assert!(grants[0].write);
}

#[test]
fn invited_reader_views_but_cannot_rename_or_post() {
    let (mut store, _a_id, b_id, board_id) = trip_plans();
    let seen = service::specific_board(&store, Some(HEADER_B), board_id)
        .expect("reader views the board");
    assert_eq!(seen.id, board_id);
    assert_eq!(seen.title, "Trip Plans");
    let renamed = service::update_specific_board(
        &mut store,
        Some(HEADER_B),
        board_id,
        UpdateBoard { user_id: None, title: Some(String::from("Mine Now")), visibility: None },
    );
    assert_eq!(renamed.unwrap_err(), ApiError::OwnerRequired);
    let posted = service::new_note(
        &mut store,
        Some(HEADER_B),
        NewNote {
            user_id: b_id,
            board_id,
            title: String::from("Idea"),
            body: String::from("..."),
        },
    );
    assert_eq!(posted.unwrap_err(), ApiError::WriteDenied);
}

#[test]
fn unauthenticated_requests_yield_missing_credential_mapped_to_401() {
    let (mut store, _a, _b, board_id) = trip_plans();
    let errs = [
        service::user(&store, None).unwrap_err(),
        service::viewable_boards(&store, None).unwrap_err(),
        service::specific_board(&store, None, board_id).unwrap_err(),
        service::all_notes(&store, None, board_id).unwrap_err(),
        service::delete_specific_board(&mut store, None, board_id).unwrap_err(),
        service::new_note(
            &mut store,
            None,
            NewNote {
                user_id: 1,
                board_id,
                title: String::from("t"),
                body: String::from("b"),
            },
        )
        .unwrap_err(),
    ];
    for e in errs {
        assert_eq!(e, ApiError::MissingCredential);
        assert_eq!(status_code(&e), 401);
    }
}

#[test]
fn token_matching_no_stored_credential_yields_unknown_user() {
    let (store, _a, _b, board_id) = trip_plans();
    let e = service::specific_board(&store, Some("Bearer not-a-known-token"), board_id)
        .unwrap_err();
    assert_eq!(e, ApiError::UnknownUser);
    assert_eq!(service::user(&store, Some("Bearer nope")).unwrap_err(), ApiError::UnknownUser);
}

#[test]
fn deleting_a_board_cascades_to_its_notes_and_grants() {
    let (mut store, a_id, _b_id, board_id) = trip_plans();
    let other = service::new_board(
        &mut store,
        Some(HEADER_A),
        NewBoard { user_id: a_id, title: String::from("Keep"), visibility: 0 },
    )
    .expect("second board");
    for title in ["one", "two"] {
        service::new_note(
            &mut store,
            Some(HEADER_A),
            NewNote {
                user_id: a_id,
                board_id,
                title: String::from(title),
                body: String::from("body"),
            },
        )
        .expect("owner writes a note");
    }
    let kept_note = service::new_note(
        &mut store,
        Some(HEADER_A),
        NewNote {
            user_id: a_id,
            board_id: other.id,
            title: String::from("kept"),
            body: String::from("body"),
        },
    )
    .expect("note on the other board");
    service::delete_specific_board(&mut store, Some(HEADER_A), board_id)
        .expect("owner deletes the board");
    assert!(store.boards.iter().all(|b| b.id != board_id));
    assert!(store.notes.iter().all(|n| n.board_id != board_id));
    assert!(store.permissions.iter().all(|p| p.board_id != board_id));
    assert!(store.boards.iter().any(|b| b.id == other.id));
    assert!(store.notes.iter().any(|n| n.id == kept_note.id));
    assert_eq!(
        service::specific_board(&store, Some(HEADER_A), board_id).unwrap_err(),
        ApiError::NotFound
    );
}

#[test]
fn only_the_owner_deletes_a_board() {
    let (mut store, _a, _b, board_id) = trip_plans();
    assert_eq!(
        service::delete_specific_board(&mut store, Some(HEADER_B), board_id).unwrap_err(),
        ApiError::OwnerRequired
    );
    assert!(store.boards.iter().any(|b| b.id == board_id));
}

#[test]
fn viewable_boards_lists_owned_and_shared_boards() {
    let (mut store, a_id, _b, board_id) = trip_plans();
    let second = service::new_board(
        &mut store,
        Some(HEADER_A),
        NewBoard { user_id: a_id, title: String::from("Second"), visibility: 0 },
    )
    .expect("second board");
    let for_a = service::viewable_boards(&store, Some(HEADER_A)).expect("owner's list");
    assert_eq!(for_a, vec![board_id, second.id]);
    let for_b = service::viewable_boards(&store, Some(HEADER_B)).expect("reader's list");
    assert_eq!(for_b, vec![board_id]);
}

#[test]
fn listing_a_board_needs_read_capability() {
    let (mut store, a_id, b_id, board_id) = trip_plans();
    let note = service::new_note(
        &mut store,
        Some(HEADER_A),
        NewNote {
            user_id: a_id,
            board_id,
            title: String::from("n"),
            body: String::from("b"),
        },
    )
    .expect("owner writes");
    let notes_for_b = service::all_notes(&store, Some(HEADER_B), board_id)
        .expect("reader lists notes");
    assert_eq!(notes_for_b, vec![note.id]);
    let members = service::all_users(&store, Some(HEADER_B), board_id)
        .expect("reader lists members");
    assert_eq!(members, vec![a_id, b_id]);
    let grants = service::all_permissions(&store, Some(HEADER_B), board_id)
        .expect("reader lists grants");
    assert_eq!(grants.len(), 2);
    // A stranger cannot list at all.
    service::callback(&mut store, 303, "token-of-user-c", String::from("c@example.com"));
    assert_eq!(
        service::all_notes(&store, Some("Bearer token-of-user-c"), board_id).unwrap_err(),
        ApiError::NotInvited
    );
}

#[test]
fn a_note_is_read_through_its_board_grant() {
    let (mut store, a_id, _b, board_id) = trip_plans();
    let note = service::new_note(
        &mut store,
        Some(HEADER_A),
        NewNote {
            user_id: a_id,
            board_id,
            title: String::from("n"),
            body: String::from("hello"),
        },
    )
    .expect("owner writes");
    let seen = service::specific_note(&store, Some(HEADER_B), note.id).expect("reader reads");
    assert_eq!(seen.body, "hello");
    service::callback(&mut store, 303, "token-of-user-c", String::from("c@example.com"));
    assert_eq!(
        service::specific_note(&store, Some("Bearer token-of-user-c"), note.id).unwrap_err(),
        ApiError::NotInvited
    );
    assert_eq!(
        service::specific_note(&store, Some(HEADER_A), note.id + 100).unwrap_err(),
        ApiError::NotFound
    );
}

#[test]
fn updating_a_note_needs_write_on_its_board() {
    let (mut store, a_id, _b, board_id) = trip_plans();
    let note = service::new_note(
        &mut store,
        Some(HEADER_A),
        NewNote {
            user_id: a_id,
            board_id,
            title: String::from("old title"),
            body: String::from("old body"),
        },
    )
    .expect("owner writes");
    assert_eq!(
        service::update_specific_note(
            &mut store,
            Some(HEADER_B),
            note.id,
            UpdateNote { user_id: None, board_id: None, title: None, body: None },
        )
        .unwrap_err(),
        ApiError::WriteDenied
    );
    let updated = service::update_specific_note(
        &mut store,
        Some(HEADER_A),
        note.id,
        UpdateNote {
            user_id: None,
            board_id: None,
            title: Some(String::from("new title")),
            body: None,
        },
    )
    .expect("owner updates");
    assert_eq!(updated.id, note.id);
    assert_eq!(updated.title, "new title");
    assert_eq!(updated.body, "old body");
}

#[test]
fn renaming_a_board_keeps_its_owner() {
    let (mut store, a_id, b_id, board_id) = trip_plans();
    let renamed = service::update_specific_board(
        &mut store,
        Some(HEADER_A),
        board_id,
        UpdateBoard {
            user_id: Some(b_id),
            title: Some(String::from("Renamed")),
            visibility: Some(1),
        },
    )
    .expect("owner renames");
    assert_eq!(renamed.title, "Renamed");
    assert_eq!(renamed.visibility, 1);
    assert_eq!(renamed.user_id, a_id);
}

#[test]
fn per_user_reads_are_gated_by_the_users_own_token() {
    let (mut store, a_id, b_id, board_id) = trip_plans();
    let note = service::new_note(
        &mut store,
        Some(HEADER_A),
        NewNote {
            user_id: a_id,
            board_id,
            title: String::from("n"),
            body: String::from("b"),
        },
    )
    .expect("owner writes");
    assert_eq!(
        service::boards_from_user_with_id(&store, Some(HEADER_A), a_id).expect("own boards"),
        vec![board_id]
    );
    assert_eq!(
        service::boards_from_user_with_id(&store, Some(HEADER_B), a_id).unwrap_err(),
        ApiError::UnknownUser
    );
    assert_eq!(
        service::notes_from_user_with_id(&store, Some(HEADER_A), a_id).expect("own notes"),
        vec![note.id]
    );
    let grants = service::permissions_for_user_with_id(&store, Some(HEADER_B), b_id)
        .expect("own grants");
    assert_eq!(grants.len(), 1);
    assert!(grants[0].read);
    assert!(!grants[0].write);
    let g = service::permission_for_user_with_board(&store, Some(HEADER_B), b_id, board_id)
        .expect("own grant on the board");
    assert_eq!(g.board_id, board_id);
    assert_eq!(
        service::permission_for_user_with_board(&store, Some(HEADER_A), a_id, board_id + 100)
            .unwrap_err(),
        ApiError::NotFound
    );
    let me = service::user_with_id(&store, Some(HEADER_A), a_id).expect("own record");
    assert_eq!(me.id, a_id);
    assert_eq!(
        service::user_with_id(&store, Some(HEADER_A), a_id + 100).unwrap_err(),
        ApiError::NotFound
    );
    assert_eq!(service::all_user_ids(&store).expect("ids"), vec![a_id, b_id]);
}

#[test]
fn creating_a_note_for_someone_else_is_refused() {
    let (mut store, a_id, b_id, board_id) = trip_plans();
    assert_eq!(
        service::new_note(
            &mut store,
            Some(HEADER_A),
            NewNote {
                user_id: b_id,
                board_id,
                title: String::from("t"),
                body: String::from("b"),
            },
        )
        .unwrap_err(),
        ApiError::UnknownUser
    );
    assert_eq!(
        service::new_note(
            &mut store,
            Some(HEADER_A),
            NewNote {
                user_id: a_id,
                board_id: board_id + 100,
                title: String::from("t"),
                body: String::from("b"),
            },
        )
        .unwrap_err(),
        ApiError::NotFound
    );
}

#[test]
fn write_only_invitee_posts_but_cannot_view() {
    let (mut store, _a, _b, board_id) = trip_plans();
    service::callback(&mut store, 303, "token-of-user-c", String::from("c@example.com"));
    let c_id = store.users[2].id;
    store.insert_permission(NewPermission {
        user_id: c_id,
        board_id,
        read: false,
        write: true,
    });
    let header_c = Some("Bearer token-of-user-c");
    let posted = service::new_note(
        &mut store,
        header_c,
        NewNote {
            user_id: c_id,
            board_id,
            title: String::from("drop"),
            body: String::from("box"),
        },
    )
    .expect("write-only invitee posts");
    assert_eq!(posted.board_id, board_id);
    assert_eq!(
        service::specific_board(&store, header_c, board_id).unwrap_err(),
        ApiError::ReadDenied
    );
    assert_eq!(
        service::all_notes(&store, header_c, board_id).unwrap_err(),
        ApiError::ReadDenied
    );
}

#[test]
fn granting_twice_updates_the_same_row() {
    let (mut store, _a, b_id, board_id) = trip_plans();
    let before = store.permissions.len();
    let g = store.insert_permission(NewPermission {
        user_id: b_id,
        board_id,
        read: true,
        write: true,
    });
    assert_eq!(store.permissions.len(), before);
    assert!(g.write);
    let now = store.get_permission(b_id, board_id).expect("grant exists");
    assert!(now.read);
    assert!(now.write);
}
