//! Identity providers and the account data they hand back.

use crate::digest::{sha3_256, sha3_256_of};
use vstd::prelude::*;

verus! {

/// A provider of user credentials and profile information.
#[derive(Clone, Copy, Debug, PartialEq, Eq, Structural)]
pub enum AccessProvider {
    /// The GitHub identity API.
    GitHub,
    /// The Google identity API.
    Google,
}

impl AccessProvider {
    /// Recognises a provider by the name a login route presents: exactly
    /// `github` and `google` are known; any other name is refused.
    pub fn of_name(name: &str) -> (r: Option<AccessProvider>)
        ensures
            name@ == "github"@ ==> r == Some(AccessProvider::GitHub),
            name@ == "google"@ ==> r == Some(AccessProvider::Google),
            name@ != "github"@ && name@ != "google"@ ==> r is None,
    {
        proof {
            reveal_strlit("github");
            reveal_strlit("google");
            assert(("github"@)[2] == 't');
            assert(("google"@)[2] == 'o');
            assert("github"@ != "google"@);
        }
        if str_eq(name, "github") {
            Some(AccessProvider::GitHub)
        } else if str_eq(name, "google") {
            Some(AccessProvider::Google)
        } else {
            None
        }
    }

    /// The request URI for a user's basic account information at this
    /// provider.
    pub fn base_profile_request_uri(&self) -> (uri: &str)
        ensures
            *self is GitHub ==> uri@ == "https://api.github.com/user"@,
            *self is Google ==> uri@ == "https://www.googleapis.com/userinfo/v2/me"@,
    {
        match self {
            AccessProvider::GitHub => "https://api.github.com/user",
            AccessProvider::Google => "https://www.googleapis.com/userinfo/v2/me",
        }
    }
}

/// Whether two strings hold the same characters.
fn str_eq(a: &str, b: &str) -> (r: bool)
    ensures
        r == (a@ == b@),
{
    a.to_owned() == b.to_owned()
}

/// An account at an identity provider, identified by its access token.
#[derive(Debug, PartialEq)]
pub struct User {
    /// The account's access token at the provider.
    pub access_token: String,
    /// The provider the token belongs to.
    pub provider: AccessProvider,
}

impl User {
    /// A stable identifier derived from the access token alone: its
    /// 32-byte SHA3-256 digest.
    pub fn user_id(&self) -> (id: Vec<u8>)
        ensures
            id@ == sha3_256_of(vstd::utf8::encode_utf8(self.access_token@)),
            id@.len() == 32,
    {
        sha3_256(self.access_token.as_str().as_bytes())
    }
}

/// One email entry of a GitHub account.
#[derive(Debug, PartialEq)]
pub struct GitHubEmail {
    /// The address itself.
    pub email: String,
    /// Whether GitHub has verified the address.
    pub verified: bool,
    /// Whether the address is the account's primary one.
    pub primary: bool,
    /// The address's visibility setting.
    pub visibility: String,
}

impl GitHubEmail {
    /// Builds an email entry; the visibility setting starts empty.
    pub fn new(email: String, verified: bool, primary: bool) -> (e: GitHubEmail)
        ensures
            e.email == email,
            e.verified == verified,
            e.primary == primary,
    {
        GitHubEmail { email, verified, primary, visibility: String::new() }
    }
}

impl Clone for GitHubEmail {
    fn clone(&self) -> (other: Self)
        ensures
            other == *self,
    {
        GitHubEmail {
            email: self.email.clone(),
            verified: self.verified,
            primary: self.primary,
            visibility: self.visibility.clone(),
        }
    }
}

/// The index of the entry that the selection sweep settles on, scanning
/// from position `i` with `best` the index preferred so far: a verified
/// primary entry wins immediately, otherwise the last verified entry,
/// otherwise whatever was preferred at the start.
pub open spec fn best_email_index(s: Seq<GitHubEmail>, i: int, best: int) -> int
    decreases s.len() - i,
{
    if i < 0 || i >= s.len() {
        best
    } else if s[i].verified && s[i].primary {
        i
    } else if s[i].verified {
        best_email_index(s, i + 1, i)
    } else {
        best_email_index(s, i + 1, best)
    }
}

/// The emails of a GitHub account, as its email endpoint answers them.
#[derive(Debug, PartialEq)]
pub struct GitHubEmailResponse {
    /// The account's email entries.
    pub emails: Vec<GitHubEmail>,
}

impl GitHubEmailResponse {
    /// Wraps a list of email entries as a response.
    pub fn new(emails: Vec<GitHubEmail>) -> (r: Self)
        ensures
            r.emails == emails,
    {
        GitHubEmailResponse { emails }
    }

    /// Picks the most suitable of the available emails: the first entry
    /// that is both verified and primary; failing that, the last verified
    /// entry; failing that, the first entry.
    pub fn best_email(&self) -> (best: &GitHubEmail)
        requires
            self.emails@.len() > 0,
        ensures
            *best == self.emails@[best_email_index(self.emails@, 0, 0)],
            0 <= best_email_index(self.emails@, 0, 0) < self.emails@.len(),
    {
        let ghost s = self.emails@;
        let n = self.emails.len();
        let mut best_idx: usize = 0;
        let mut i: usize = 0;
        while i < n
            invariant
                n == s.len(),
                s == self.emails@,
                0 < n,
                i <= n,
                best_idx < n,
                best_email_index(s, 0, 0) == best_email_index(s, i as int, best_idx as int),
            decreases n - i,
        {
            if self.emails[i].verified {
                if self.emails[i].primary {
                    return &self.emails[i];
                }
                best_idx = i;
            }
            i += 1;
        }
        &self.emails[best_idx]
    }
}

} // verus!
