//! Establishing a caller's identity.
//!
//! A request carries an authorization header whose value ends in the raw
//! bearer token. The token is never compared directly: its one-way digest
//! is held against every stored credential digest, and the matching user —
//! if any — is the caller.

use crate::digest::{hash_token, token_digest};
use crate::errors::ApiError;
use crate::models::User;
use crate::store::Store;
use vstd::prelude::*;
use vstd::string::StrSliceExecFns;

verus! {

/// The token carried by an authorization header value: the part after the
/// last space, or the whole value if it holds no space.
pub open spec fn bearer_token(h: Seq<char>) -> Seq<char>
    decreases h.len(),
{
    if h.len() == 0 {
        Seq::empty()
    } else if h.last() == ' ' {
        Seq::empty()
    } else {
        bearer_token(h.drop_last()).push(h.last())
    }
}

/// The stored digest that a presented header value must match: the digest
/// of the token the header carries.
pub open spec fn header_digest(h: Seq<char>) -> Seq<char> {
    token_digest(bearer_token(h))
}

/// The part of `h` from a position that is the start of its space-free
/// suffix is exactly the bearer token.
proof fn lemma_bearer_token_subrange(h: Seq<char>, start: int)
    requires
        0 <= start <= h.len(),
        forall|k: int| start <= k < h.len() ==> h[k] != ' ',
        start == 0 || h[start - 1] == ' ',
    ensures
        bearer_token(h) == h.subrange(start, h.len() as int),
    decreases h.len(),
{
    if start == h.len() {
        assert(h.subrange(start, h.len() as int) =~= Seq::<char>::empty());
    } else {
        let rest = h.drop_last();
        assert(h.last() != ' ');
        lemma_bearer_token_subrange(rest, start);
        assert(bearer_token(h) == rest.subrange(start, rest.len() as int).push(h.last()));
        assert(rest.subrange(start, rest.len() as int).push(h.last()) =~= h.subrange(
            start,
            h.len() as int,
        ));
    }
}

/// Pulls the bearer token out of an authorization header: the absence of
/// the header is the distinct failure `MissingCredential`; a present
/// header always yields its trailing token, even an empty one.
pub fn extract_bearer<'a>(header: Option<&'a str>) -> (r: Result<&'a str, ApiError>)
    ensures
        match header {
            None => r == Err::<&'a str, ApiError>(ApiError::MissingCredential),
            Some(h) => r is Ok && r->Ok_0@ == bearer_token(h@),
        },
{
    match header {
        None => Err(ApiError::MissingCredential),
        Some(h) => {
            let len = h.unicode_len();
            let mut start: usize = 0;
            let mut i: usize = 0;
            while i < len
                invariant
                    len == h@.len(),
                    i <= len,
                    start <= i,
                    start == 0 || h@[start - 1] == ' ',
                    forall|k: int| start <= k < i ==> h@[k] != ' ',
                decreases len - i,
            {
                if h.get_char(i) == ' ' {
                    start = i + 1;
                }
                i += 1;
            }
            let tok = h.substring_char(start, len);
            proof {
                lemma_bearer_token_subrange(h@, start as int);
            }
            Ok(tok)
        },
    }
}

/// Whether `u` is a user of `s` whose stored credential digest matches the
/// header value `h`.
pub open spec fn resolved_ok(s: Store, h: Seq<char>, u: User) -> bool {
    s.users@.contains(u) && u.oauth_token@ == header_digest(h)
}

/// Whether no user of `s` matches the header value `h`.
pub open spec fn no_user_matches(s: Store, h: Seq<char>) -> bool {
    forall|i: int|
        0 <= i < s.users@.len() ==> (#[trigger] s.users@[i]).oauth_token@ != header_digest(h)
}

/// Maps a presented authorization header to the user it identifies: no
/// header at all is `MissingCredential`, a token whose digest matches no
/// stored credential is `UnknownUser`, and otherwise the matching user is
/// returned.
pub fn resolve(store: &Store, header: Option<&str>) -> (r: Result<User, ApiError>)
    ensures
        match header {
            None => r == Err::<User, ApiError>(ApiError::MissingCredential),
            Some(h) => match r {
                Ok(u) => resolved_ok(*store, h@, u),
                Err(e) => e == ApiError::UnknownUser && no_user_matches(*store, h@),
            },
        },
{
    let token = match extract_bearer(header) {
        Ok(t) => t,
        Err(e) => {
            return Err(e);
        },
    };
    let digest = hash_token(token);
    match store.get_user_by_token_digest(&digest) {
        Some(u) => Ok(u.clone()),
        None => Err(ApiError::UnknownUser),
    }
}

/// Confirms that the presented raw token belongs to `user`: accepted
/// exactly when the token's digest equals the user's stored credential
/// digest.
pub fn continue_if_authenticated(user: &User, auth_token: &str) -> (r: Result<(), ApiError>)
    ensures
        token_digest(auth_token@) == user.oauth_token@ ==> r is Ok,
        token_digest(auth_token@) != user.oauth_token@ ==> r == Err::<(), ApiError>(
            ApiError::UnknownUser,
        ),
{
    let digest = hash_token(auth_token);
    if digest == user.oauth_token {
        Ok(())
    } else {
        Err(ApiError::UnknownUser)
    }
}

} // verus!
