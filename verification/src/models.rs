//! The rows of the four relations: users, boards, notes and permissions,
//! together with the request shapes used to create and update them.

use vstd::prelude::*;

verus! {

/// A registered user.
#[derive(Debug, PartialEq)]
pub struct User {
    /// The unique identifier issued by the user's identity provider.
    pub oauth_id: i32,
    /// The one-way digest of the user's current session token.
    pub oauth_token: String,
    /// The user's email address.
    pub email: String,
    /// The user's own unique identifier.
    pub id: i32,
}

impl Clone for User {
    fn clone(&self) -> (other: Self)
        ensures
            other == *self,
    {
        User {
            oauth_id: self.oauth_id,
            oauth_token: self.oauth_token.clone(),
            email: self.email.clone(),
            id: self.id,
        }
    }
}

/// A user as presented to the freshly authenticated caller: unlike
/// [`User`], it carries the raw session token rather than its digest.
#[derive(Debug, PartialEq)]
pub struct OwnedUser {
    /// The unique identifier issued by the user's identity provider.
    pub oauth_id: i32,
    /// The raw session token.
    pub oauth_token: String,
    /// The user's email address.
    pub email: String,
}

/// The fields of a user to be inserted; the store assigns the identifier.
#[derive(Debug, PartialEq)]
pub struct NewUser {
    /// The unique identifier issued by the user's identity provider.
    pub oauth_id: i32,
    /// The one-way digest of the user's current session token.
    pub oauth_token: String,
    /// The user's email address.
    pub email: String,
}

/// The fields of a user that a fresh login replaces.
#[derive(Debug, PartialEq)]
pub struct UpdateUser {
    /// The one-way digest of the new session token.
    pub oauth_token: String,
    /// The user's current email address.
    pub email: String,
}

/// A board owned by one user.
#[derive(Debug, PartialEq)]
pub struct Board {
    /// The board's unique identifier.
    pub id: i32,
    /// The identifier of the user owning the board.
    pub user_id: i32,
    /// The title of the board.
    pub title: String,
    /// The privacy setting of the board (0 = private, 1 = accessible by link).
    pub visibility: i16,
}

impl Clone for Board {
    fn clone(&self) -> (other: Self)
        ensures
            other == *self,
    {
        Board {
            id: self.id,
            user_id: self.user_id,
            title: self.title.clone(),
            visibility: self.visibility,
        }
    }
}

/// The fields of a board to be created; the store assigns the identifier.
#[derive(Debug, PartialEq)]
pub struct NewBoard {
    /// The identifier of the user who is to own the board.
    pub user_id: i32,
    /// The title of the board.
    pub title: String,
    /// The privacy setting of the board (0 = private, 1 = accessible by link).
    pub visibility: i16,
}

/// A partial update of a board; absent fields keep their old value.
#[derive(Debug, PartialEq)]
pub struct UpdateBoard {
    /// The replacement owner, if any.
    pub user_id: Option<i32>,
    /// The replacement title, if any.
    pub title: Option<String>,
    /// The replacement privacy setting, if any.
    pub visibility: Option<i16>,
}

impl UpdateBoard {
    /// Merges this partial update into `old_board`, consuming the update's
    /// fields: a field present in the update wins, an absent one falls back
    /// to the old board. The board's identifier never changes.
    pub fn new_board(&mut self, old_board: Board) -> (merged: Board)
        ensures
            merged.id == old_board.id,
            merged.user_id == match old(self).user_id {
                Some(u) => u,
                None => old_board.user_id,
            },
            merged.title == match old(self).title {
                Some(t) => t,
                None => old_board.title,
            },
            merged.visibility == match old(self).visibility {
                Some(v) => v,
                None => old_board.visibility,
            },
            final(self).user_id is None,
            final(self).title is None,
            final(self).visibility is None,
    {
        Board {
            id: old_board.id,
            user_id: match self.user_id.take() {
                Some(u) => u,
                None => old_board.user_id,
            },
            title: match self.title.take() {
                Some(t) => t,
                None => old_board.title,
            },
            visibility: match self.visibility.take() {
                Some(v) => v,
                None => old_board.visibility,
            },
        }
    }
}

/// A note on a board, authored by a user.
#[derive(Debug, PartialEq)]
pub struct Note {
    /// The note's unique identifier.
    pub id: i32,
    /// The identifier of the user who authored the note.
    pub user_id: i32,
    /// The identifier of the board the note belongs to.
    pub board_id: i32,
    /// The title of the note.
    pub title: String,
    /// The text contained in the note.
    pub body: String,
}

impl Clone for Note {
    fn clone(&self) -> (other: Self)
        ensures
            other == *self,
    {
        Note {
            id: self.id,
            user_id: self.user_id,
            board_id: self.board_id,
            title: self.title.clone(),
            body: self.body.clone(),
        }
    }
}

/// The fields of a note to be created; the store assigns the identifier.
#[derive(Debug, PartialEq)]
pub struct NewNote {
    /// The identifier of the user authoring the note.
    pub user_id: i32,
    /// The identifier of the board the note is to belong to.
    pub board_id: i32,
    /// The title of the note.
    pub title: String,
    /// The text contained in the note.
    pub body: String,
}

/// A partial update of a note; absent fields keep their old value.
#[derive(Debug, PartialEq)]
pub struct UpdateNote {
    /// The replacement author, if any.
    pub user_id: Option<i32>,
    /// The replacement board, if any.
    pub board_id: Option<i32>,
    /// The replacement title, if any.
    pub title: Option<String>,
    /// The replacement body, if any.
    pub body: Option<String>,
}

impl UpdateNote {
    /// Merges this partial update into `old_note`, consuming the update's
    /// fields: a field present in the update wins, an absent one falls back
    /// to the old note. The note's identifier never changes.
    pub fn new_note(&mut self, old_note: Note) -> (merged: Note)
        ensures
            merged.id == old_note.id,
            merged.user_id == match old(self).user_id {
                Some(u) => u,
                None => old_note.user_id,
            },
            merged.board_id == match old(self).board_id {
                Some(b) => b,
                None => old_note.board_id,
            },
            merged.title == match old(self).title {
                Some(t) => t,
                None => old_note.title,
            },
            merged.body == match old(self).body {
                Some(b) => b,
                None => old_note.body,
            },
            final(self).user_id is None,
            final(self).board_id is None,
            final(self).title is None,
            final(self).body is None,
    {
        Note {
            id: old_note.id,
            user_id: match self.user_id.take() {
                Some(u) => u,
                None => old_note.user_id,
            },
            board_id: match self.board_id.take() {
                Some(b) => b,
                None => old_note.board_id,
            },
            title: match self.title.take() {
                Some(t) => t,
                None => old_note.title,
            },
            body: match self.body.take() {
                Some(b) => b,
                None => old_note.body,
            },
        }
    }
}

/// An invitation: a grant of read/write rights on one board to one user
/// who is not its owner.
#[derive(Clone, Copy, Debug, PartialEq, Eq, Structural)]
pub struct Permission {
    /// The grant's unique identifier.
    pub id: i32,
    /// The identifier of the invited user.
    pub user_id: i32,
    /// The identifier of the board the grant applies to.
    pub board_id: i32,
    /// Whether the invited user may read the board.
    pub read: bool,
    /// Whether the invited user may write to the board.
    pub write: bool,
}

/// The fields of a grant to be inserted; the store assigns the identifier.
#[derive(Clone, Copy, Debug, PartialEq, Eq, Structural)]
pub struct NewPermission {
    /// The identifier of the invited user.
    pub user_id: i32,
    /// The identifier of the board the grant applies to.
    pub board_id: i32,
    /// Whether the invited user may read the board.
    pub read: bool,
    /// Whether the invited user may write to the board.
    pub write: bool,
}

/// The query parameters presented to the login callback route.
#[derive(Debug, PartialEq)]
pub struct CallbackRequest {
    /// The authorization code handed back by the identity provider.
    pub code: String,
    /// The state challenge handed back by the identity provider.
    pub state: String,
}

impl CallbackRequest {
    /// Whether the state challenge returned by the provider matches the one
    /// this session issued; a callback with any other state is rejected.
    pub fn state_matches(&self, session_state: &String) -> (ok: bool)
        ensures
            ok == (self.state@ == session_state@),
    {
        self.state == *session_state
    }
}

} // verus!
