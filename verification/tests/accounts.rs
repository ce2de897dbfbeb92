use notedly::models::{Board, CallbackRequest, Note, UpdateBoard, UpdateNote};
use notedly::modes::geometric::{Point, Shape};
use notedly::modes::Mode;
use notedly::provider::{AccessProvider, GitHubEmail, GitHubEmailResponse, User};

#[test]
fn only_github_and_google_are_recognised_providers() {
    assert_eq!(AccessProvider::of_name("github"), Some(AccessProvider::GitHub));
    assert_eq!(AccessProvider::of_name("google"), Some(AccessProvider::Google));
    assert_eq!(AccessProvider::of_name("gitlab"), None);
    assert_eq!(AccessProvider::of_name(""), None);
    assert_eq!(AccessProvider::of_name("GitHub"), None);
}

#[test]
fn base_profile_request_uris() {
    assert_eq!(
        AccessProvider::GitHub.base_profile_request_uri(),
        "https://api.github.com/user"
    );
    assert_eq!(
        AccessProvider::Google.base_profile_request_uri(),
        "https://www.googleapis.com/userinfo/v2/me"
    );
}

#[test]
fn user_id_is_the_32_byte_digest_of_the_access_token() {
    let u = User {
        access_token: String::from("abc"),
        provider: AccessProvider::GitHub,
    };
    let id = u.user_id();
    assert_eq!(id.len(), 32);
    assert_eq!(
        hex::encode(&id),
        "3a985da74fe225b2045c172d6bd390bd855f086e3e9d525b46bfe24511431532"
    );
}

fn email(addr: &str, verified: bool, primary: bool) -> GitHubEmail {
    GitHubEmail::new(String::from(addr), verified, primary)
}

#[test]
fn best_email_prefers_the_first_verified_primary() {
    let r = GitHubEmailResponse::new(vec![
        email("unverified@example.com", false, false),
        email("verified@example.com", true, false),
        email("primary@example.com", true, true),
        email("later-primary@example.com", true, true),
    ]);
    assert_eq!(r.best_email().email, "primary@example.com");
}

#[test]
fn best_email_falls_back_to_the_last_verified() {
    let r = GitHubEmailResponse::new(vec![
        email("first@example.com", true, false),
        email("unverified@example.com", false, true),
        email("second@example.com", true, false),
    ]);
    assert_eq!(r.best_email().email, "second@example.com");
}

#[test]
fn best_email_falls_back_to_the_first_entry() {
    let r = GitHubEmailResponse::new(vec![
        email("only@example.com", false, true),
        email("other@example.com", false, false),
    ]);
    assert_eq!(r.best_email().email, "only@example.com");
}

#[test]
fn callback_request_state_must_match_the_session() {
    let req = CallbackRequest {
        code: String::from("auth-code"),
        state: String::from("state-123"),
    };
    assert!(req.state_matches(&String::from("state-123")));
    assert!(!req.state_matches(&String::from("state-456")));
}

#[test]
fn update_board_merge_takes_present_fields_and_keeps_absent_ones() {
    let old = Board {
        id: 9,
        user_id: 3,
        title: String::from("Old"),
        visibility: 0,
    };
    let mut upd = UpdateBoard {
        user_id: None,
        title: Some(String::from("New")),
        visibility: None,
    };
    let merged = upd.new_board(old);
    assert_eq!(merged.id, 9);
    assert_eq!(merged.user_id, 3);
    assert_eq!(merged.title, "New");
    assert_eq!(merged.visibility, 0);
    assert!(upd.title.is_none());
}

#[test]
fn update_note_merge_takes_present_fields_and_keeps_absent_ones() {
    let old = Note {
        id: 4,
        user_id: 3,
        board_id: 9,
        title: String::from("Old"),
        body: String::from("Body"),
    };
    let mut upd = UpdateNote {
        user_id: Some(5),
        board_id: None,
        title: None,
        body: Some(String::from("Fresh")),
    };
    let merged = upd.new_note(old);
    assert_eq!(merged.id, 4);
    assert_eq!(merged.user_id, 5);
    assert_eq!(merged.board_id, 9);
    assert_eq!(merged.title, "Old");
    assert_eq!(merged.body, "Fresh");
    assert!(upd.user_id.is_none());
    assert!(upd.body.is_none());
}

#[test]
fn shapes_and_points_start_where_asked() {
    let s = Shape::new();
    assert!(s.points.is_empty());
    assert!(s.connections.is_empty());
    let p = Point::new(3, -4);
    assert_eq!(p.0, 3);
    assert_eq!(p.1, -4);
}

#[test]
fn modes_cover_the_five_representations() {
    let all = [
        Mode::Anglicized,
        Mode::Algebraic,
        Mode::Programming,
        Mode::Geometric,
        Mode::Markdown,
    ];
    assert_eq!(all.iter().filter(|m| matches!(m, Mode::Geometric)).count(), 1);
}
