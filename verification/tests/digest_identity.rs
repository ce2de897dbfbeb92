use notedly::digest::hash_token;
use notedly::errors::ApiError;
use notedly::identity::{continue_if_authenticated, extract_bearer, resolve};
use notedly::models::User;
use notedly::store::Store;

#[test]
fn hash_token_matches_known_sha3_256_vectors() {
    // SHA3-256 of the empty string and of "abc", hex-encoded.
    assert_eq!(
        hash_token(""),
        "a7ffc6f8bf1ed76651c14756a061d662f580ff4de43b49fa82d80a4b80f8434a"
    );
    assert_eq!(
        hash_token("abc"),
        "3a985da74fe225b2045c172d6bd390bd855f086e3e9d525b46bfe24511431532"
    );
}

#[test]
fn distinct_tokens_have_distinct_digests() {
    let a = hash_token("fixture-token-one");
    let b = hash_token("fixture-token-two");
    assert_eq!(a.len(), 64);
    assert_eq!(b.len(), 64);
    assert_ne!(a, b);
}

#[test]
fn hash_token_is_deterministic() {
    assert_eq!(hash_token("same-token"), hash_token("same-token"));
}

#[test]
fn extract_bearer_requires_a_header() {
    assert_eq!(extract_bearer(None), Err(ApiError::MissingCredential));
}

#[test]
fn extract_bearer_takes_the_part_after_the_last_space() {
    assert_eq!(extract_bearer(Some("Bearer abc")), Ok("abc"));
    assert_eq!(extract_bearer(Some("abc")), Ok("abc"));
    assert_eq!(extract_bearer(Some("Bearer ")), Ok(""));
    assert_eq!(extract_bearer(Some("a b c")), Ok("c"));
    assert_eq!(extract_bearer(Some("")), Ok(""));
}

fn store_with_user(token: &str) -> (Store, i32) {
    let mut store = Store::new();
    let owned = notedly::service::callback(&mut store, 11, token, String::from("a@example.com"));
    assert_eq!(owned.oauth_id, 11);
    assert_eq!(owned.oauth_token, token);
    let uid = store.users[0].id;
    (store, uid)
}

#[test]
fn resolve_finds_the_user_whose_digest_matches() {
    let (store, uid) = store_with_user("round-trip-token");
    let got = resolve(&store, Some("Bearer round-trip-token")).expect("token should resolve");
    assert_eq!(got.id, uid);
    assert_eq!(got.oauth_token, hash_token("round-trip-token"));
}

#[test]
fn resolve_without_header_is_missing_credential() {
    let (store, _) = store_with_user("round-trip-token");
    assert_eq!(resolve(&store, None), Err(ApiError::MissingCredential));
}

#[test]
fn resolve_with_unknown_token_is_unknown_user() {
    let (store, _) = store_with_user("round-trip-token");
    assert_eq!(
        resolve(&store, Some("Bearer some-other-token")),
        Err(ApiError::UnknownUser)
    );
}

#[test]
fn continue_if_authenticated_compares_digests() {
    let user = User {
        oauth_id: 1,
        oauth_token: hash_token("good-token"),
        email: String::from("a@example.com"),
        id: 1,
    };
    assert_eq!(continue_if_authenticated(&user, "good-token"), Ok(()));
    assert_eq!(
        continue_if_authenticated(&user, "bad-token"),
        Err(ApiError::UnknownUser)
    );
}

#[test]
fn login_rotates_the_stored_credential() {
    let (mut store, uid) = store_with_user("first-token");
    notedly::service::callback(&mut store, 11, "second-token", String::from("a@example.com"));
    assert_eq!(store.users.len(), 1);
    assert_eq!(store.users[0].id, uid);
    assert_eq!(store.users[0].oauth_token, hash_token("second-token"));
    assert_eq!(resolve(&store, Some("Bearer first-token")), Err(ApiError::UnknownUser));
    assert!(resolve(&store, Some("Bearer second-token")).is_ok());
}
