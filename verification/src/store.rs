//! An in-memory model of the persistence layer: four relations with
//! row-level operations, uniqueness of keys, referential integrity, and a
//! cascading board delete.
//!
//! Every lookup is specified against the mathematical [`lookup`] of the
//! matching row, every listing against a `filter_map` over the relation,
//! and every mutation says exactly which rows change.

use crate::models::{Board, NewBoard, NewNote, NewPermission, NewUser, Note, Permission, User};
use crate::table::{
    at_most_one, lemma_filter_map_contains_fwd, lemma_keep_contains, lemma_keep_pairwise,
    lemma_lookup_found, lemma_lookup_none, lookup, unique_by,
};
use vstd::prelude::*;

verus! {

/// The row of `s` holding the user with identifier `uid`, if any.
pub open spec fn user_by_id(s: Seq<User>, uid: i32) -> Option<User> {
    lookup(s, |u: User| u.id == uid)
}

/// The row of `s` holding the user with provider identity `oid`, if any.
pub open spec fn user_by_oauth(s: Seq<User>, oid: i32) -> Option<User> {
    lookup(s, |u: User| u.oauth_id == oid)
}

/// The row of `s` holding the board with identifier `bid`, if any.
pub open spec fn board_by_id(s: Seq<Board>, bid: i32) -> Option<Board> {
    lookup(s, |b: Board| b.id == bid)
}

/// The row of `s` holding the note with identifier `nid`, if any.
pub open spec fn note_by_id(s: Seq<Note>, nid: i32) -> Option<Note> {
    lookup(s, |n: Note| n.id == nid)
}

/// The grant of `s` for the user/board pair, if any.
pub open spec fn grant_for(s: Seq<Permission>, uid: i32, bid: i32) -> Option<Permission> {
    lookup(s, |p: Permission| p.user_id == uid && p.board_id == bid)
}

/// Whether some board of `s` has identifier `bid`.
pub open spec fn has_board(s: Seq<Board>, bid: i32) -> bool {
    exists|i: int| 0 <= i < s.len() && s[i].id == bid
}

/// Whether some user of `s` has identifier `uid`.
pub open spec fn has_user(s: Seq<User>, uid: i32) -> bool {
    exists|i: int| 0 <= i < s.len() && s[i].id == uid
}

/// Keeps the grants on board `bid`.
pub open spec fn keep_board_grant(bid: i32) -> spec_fn(Permission) -> Option<Permission> {
    |p: Permission| if p.board_id == bid {
        Some(p)
    } else {
        None
    }
}

/// Keeps the grants held by user `uid`.
pub open spec fn keep_user_grant(uid: i32) -> spec_fn(Permission) -> Option<Permission> {
    |p: Permission| if p.user_id == uid {
        Some(p)
    } else {
        None
    }
}

/// Keeps the identifiers of the notes on board `bid`.
pub open spec fn keep_board_note_id(bid: i32) -> spec_fn(Note) -> Option<i32> {
    |n: Note| if n.board_id == bid {
        Some(n.id)
    } else {
        None
    }
}

/// Keeps the identifiers of the boards owned by user `uid`.
pub open spec fn keep_owned_board_id(uid: i32) -> spec_fn(Board) -> Option<i32> {
    |b: Board| if b.user_id == uid {
        Some(b.id)
    } else {
        None
    }
}

/// Keeps the identifiers of the notes authored by user `uid`.
pub open spec fn keep_authored_note_id(uid: i32) -> spec_fn(Note) -> Option<i32> {
    |n: Note| if n.user_id == uid {
        Some(n.id)
    } else {
        None
    }
}

/// Keeps every user's identifier.
pub open spec fn keep_user_id() -> spec_fn(User) -> Option<i32> {
    |u: User| Some(u.id)
}

/// Keeps the identifiers of the users invited to board `bid`.
pub open spec fn keep_invited_user_id(bid: i32) -> spec_fn(Permission) -> Option<i32> {
    |p: Permission| if p.board_id == bid {
        Some(p.user_id)
    } else {
        None
    }
}

/// Keeps the identifiers of the boards user `uid` may view: those the user
/// owns and those the user holds any grant on.
pub open spec fn keep_viewable_id(perms: Seq<Permission>, uid: i32) -> spec_fn(Board) -> Option<
    i32,
> {
    |b: Board| if b.user_id == uid || grant_for(perms, uid, b.id) is Some {
        Some(b.id)
    } else {
        None
    }
}

/// Keeps every board except `bid`.
pub open spec fn keep_other_board(bid: i32) -> spec_fn(Board) -> Option<Board> {
    |b: Board| if b.id != bid {
        Some(b)
    } else {
        None
    }
}

/// Keeps the notes on boards other than `bid`.
pub open spec fn keep_note_off_board(bid: i32) -> spec_fn(Note) -> Option<Note> {
    |n: Note| if n.board_id != bid {
        Some(n)
    } else {
        None
    }
}

/// Keeps the grants on boards other than `bid`.
pub open spec fn keep_grant_off_board(bid: i32) -> spec_fn(Permission) -> Option<Permission> {
    |p: Permission| if p.board_id != bid {
        Some(p)
    } else {
        None
    }
}

/// The grants on board `bid`, in store order.
pub open spec fn board_grants(s: Seq<Permission>, bid: i32) -> Seq<Permission> {
    s.filter_map(keep_board_grant(bid))
}

/// The grants held by user `uid`, in store order.
pub open spec fn user_grants(s: Seq<Permission>, uid: i32) -> Seq<Permission> {
    s.filter_map(keep_user_grant(uid))
}

/// The identifiers of the notes on board `bid`, in store order.
pub open spec fn board_note_ids(s: Seq<Note>, bid: i32) -> Seq<i32> {
    s.filter_map(keep_board_note_id(bid))
}

/// The identifiers of the boards owned by user `uid`, in store order.
pub open spec fn owned_board_ids(s: Seq<Board>, uid: i32) -> Seq<i32> {
    s.filter_map(keep_owned_board_id(uid))
}

/// The identifiers of the notes authored by user `uid`, in store order.
pub open spec fn authored_note_ids(s: Seq<Note>, uid: i32) -> Seq<i32> {
    s.filter_map(keep_authored_note_id(uid))
}

/// Every user's identifier, in store order.
pub open spec fn user_ids_of(s: Seq<User>) -> Seq<i32> {
    s.filter_map(keep_user_id())
}

/// The identifiers of the users invited to board `bid`, in store order.
pub open spec fn invited_user_ids(s: Seq<Permission>, bid: i32) -> Seq<i32> {
    s.filter_map(keep_invited_user_id(bid))
}

/// The identifiers of the boards user `uid` may view, in store order.
pub open spec fn viewable_ids(boards: Seq<Board>, perms: Seq<Permission>, uid: i32) -> Seq<i32> {
    boards.filter_map(keep_viewable_id(perms, uid))
}

/// The persistence store: the four relations and the counters from which
/// fresh row identifiers are taken.
pub struct Store {
    /// The registered users.
    pub users: Vec<User>,
    /// The boards.
    pub boards: Vec<Board>,
    /// The notes, each scoped to one board.
    pub notes: Vec<Note>,
    /// The invitations, at most one per user/board pair.
    pub permissions: Vec<Permission>,
    /// The identifier the next inserted user receives.
    pub next_user_id: i32,
    /// The identifier the next inserted board receives.
    pub next_board_id: i32,
    /// The identifier the next inserted note receives.
    pub next_note_id: i32,
    /// The identifier the next inserted grant receives.
    pub next_permission_id: i32,
}

impl Store {
    /// User identifiers and provider identities never repeat, and sit
    /// below the fresh-identifier counter.
    pub open spec fn users_wf(self) -> bool {
        &&& unique_by(self.users@, |u: User| u.id as int)
        &&& unique_by(self.users@, |u: User| u.oauth_id as int)
        &&& forall|i: int|
            0 <= i < self.users@.len() ==> (#[trigger] self.users@[i]).id < self.next_user_id
    }

    /// Board identifiers never repeat, sit below the counter, and every
    /// board's owner is a registered user.
    pub open spec fn boards_wf(self) -> bool {
        &&& unique_by(self.boards@, |b: Board| b.id as int)
        &&& forall|i: int|
            0 <= i < self.boards@.len() ==> (#[trigger] self.boards@[i]).id < self.next_board_id
        &&& forall|i: int|
            0 <= i < self.boards@.len() ==> has_user(
                self.users@,
                (#[trigger] self.boards@[i]).user_id,
            )
    }

    /// Note identifiers never repeat, sit below the counter, and every
    /// note references an existing board and author.
    pub open spec fn notes_wf(self) -> bool {
        &&& unique_by(self.notes@, |n: Note| n.id as int)
        &&& forall|i: int|
            0 <= i < self.notes@.len() ==> (#[trigger] self.notes@[i]).id < self.next_note_id
        &&& forall|i: int|
            0 <= i < self.notes@.len() ==> has_board(
                self.boards@,
                (#[trigger] self.notes@[i]).board_id,
            )
        &&& forall|i: int|
            0 <= i < self.notes@.len() ==> has_user(
                self.users@,
                (#[trigger] self.notes@[i]).user_id,
            )
    }

    /// Grant identifiers never repeat, sit below the counter, at most one
    /// grant exists per user/board pair, and every grant references an
    /// existing board and user.
    pub open spec fn permissions_wf(self) -> bool {
        &&& unique_by(self.permissions@, |p: Permission| p.id as int)
        &&& forall|i: int|
            0 <= i < self.permissions@.len() ==> (#[trigger] self.permissions@[i]).id
                < self.next_permission_id
        &&& forall|i: int, j: int|
            0 <= i < j < self.permissions@.len() ==> !((#[trigger] self.permissions@[i]).user_id
                == (#[trigger] self.permissions@[j]).user_id && self.permissions@[i].board_id
                == self.permissions@[j].board_id)
        &&& forall|i: int|
            0 <= i < self.permissions@.len() ==> has_board(
                self.boards@,
                (#[trigger] self.permissions@[i]).board_id,
            )
        &&& forall|i: int|
            0 <= i < self.permissions@.len() ==> has_user(
                self.users@,
                (#[trigger] self.permissions@[i]).user_id,
            )
    }

    /// The store's invariant: every relation is well formed.
    pub open spec fn wf(self) -> bool {
        self.users_wf() && self.boards_wf() && self.notes_wf() && self.permissions_wf()
    }

    /// An empty store.
    pub fn new() -> (s: Store)
        ensures
            s.wf(),
            s.users@.len() == 0,
            s.boards@.len() == 0,
            s.notes@.len() == 0,
            s.permissions@.len() == 0,
            s.next_user_id == 1,
            s.next_board_id == 1,
            s.next_note_id == 1,
            s.next_permission_id == 1,
    {
        Store {
            users: Vec::new(),
            boards: Vec::new(),
            notes: Vec::new(),
            permissions: Vec::new(),
            next_user_id: 1,
            next_board_id: 1,
            next_note_id: 1,
            next_permission_id: 1,
        }
    }

    /// Looks up a user by identifier.
    pub fn get_user(&self, uid: i32) -> (r: Option<&User>)
        requires
            self.wf(),
        ensures
            match r {
                Some(u) => user_by_id(self.users@, uid) == Some(*u),
                None => user_by_id(self.users@, uid) is None,
            },
    {
        let n = self.users.len();
        let mut i: usize = 0;
        while i < n
            invariant
                self.wf(),
                n == self.users@.len(),
                i <= n,
                forall|j: int| 0 <= j < i ==> (#[trigger] self.users@[j]).id != uid,
            decreases n - i,
        {
            if self.users[i].id == uid {
                proof {
                    let key = |u: User| u.id as int;
                    let p = |u: User| u.id == uid;
                    assert(at_most_one(self.users@, p));
                    assert(self.users@.contains(self.users@[i as int]));
                    lemma_lookup_found(self.users@, p, self.users@[i as int]);
                }
                return Some(&self.users[i]);
            }
            i += 1;
        }
        proof {
            lemma_lookup_none(self.users@, |u: User| u.id == uid);
        }
        None
    }

    /// Looks up a user by provider identity.
    pub fn get_user_by_oauth_id(&self, oid: i32) -> (r: Option<&User>)
        requires
            self.wf(),
        ensures
            match r {
                Some(u) => user_by_oauth(self.users@, oid) == Some(*u),
                None => user_by_oauth(self.users@, oid) is None,
            },
    {
        let n = self.users.len();
        let mut i: usize = 0;
        while i < n
            invariant
                self.wf(),
                n == self.users@.len(),
                i <= n,
                forall|j: int| 0 <= j < i ==> (#[trigger] self.users@[j]).oauth_id != oid,
            decreases n - i,
        {
            if self.users[i].oauth_id == oid {
                proof {
                    let p = |u: User| u.oauth_id == oid;
                    assert(at_most_one(self.users@, p));
                    assert(self.users@.contains(self.users@[i as int]));
                    lemma_lookup_found(self.users@, p, self.users@[i as int]);
                }
                return Some(&self.users[i]);
            }
            i += 1;
        }
        proof {
            lemma_lookup_none(self.users@, |u: User| u.oauth_id == oid);
        }
        None
    }

    /// Looks up the user whose stored credential digest equals `digest`.
    ///
    /// Digests are treated as unique per active session; if several users
    /// nevertheless carried the same digest, the first would be returned.
    pub fn get_user_by_token_digest(&self, digest: &String) -> (r: Option<&User>)
        ensures
            match r {
                Some(u) => self.users@.contains(*u) && u.oauth_token@ == digest@,
                None => forall|i: int|
                    0 <= i < self.users@.len() ==> (#[trigger] self.users@[i]).oauth_token@
                        != digest@,
            },
    {
        let n = self.users.len();
        let mut i: usize = 0;
        while i < n
            invariant
                n == self.users@.len(),
                i <= n,
                forall|j: int|
                    0 <= j < i ==> (#[trigger] self.users@[j]).oauth_token@ != digest@,
            decreases n - i,
        {
            if self.users[i].oauth_token == *digest {
                return Some(&self.users[i]);
            }
            i += 1;
        }
        None
    }

    /// Looks up a board by identifier.
    pub fn get_board(&self, bid: i32) -> (r: Option<&Board>)
        requires
            self.wf(),
        ensures
            match r {
                Some(b) => board_by_id(self.boards@, bid) == Some(*b),
                None => board_by_id(self.boards@, bid) is None,
            },
    {
        let n = self.boards.len();
        let mut i: usize = 0;
        while i < n
            invariant
                self.wf(),
                n == self.boards@.len(),
                i <= n,
                forall|j: int| 0 <= j < i ==> (#[trigger] self.boards@[j]).id != bid,
            decreases n - i,
        {
            if self.boards[i].id == bid {
                proof {
                    let p = |b: Board| b.id == bid;
                    assert(at_most_one(self.boards@, p));
                    assert(self.boards@.contains(self.boards@[i as int]));
                    lemma_lookup_found(self.boards@, p, self.boards@[i as int]);
                }
                return Some(&self.boards[i]);
            }
            i += 1;
        }
        proof {
            lemma_lookup_none(self.boards@, |b: Board| b.id == bid);
        }
        None
    }

    /// Looks up a note by identifier.
    pub fn get_note(&self, nid: i32) -> (r: Option<&Note>)
        requires
            self.wf(),
        ensures
            match r {
                Some(n) => note_by_id(self.notes@, nid) == Some(*n),
                None => note_by_id(self.notes@, nid) is None,
            },
    {
        let n = self.notes.len();
        let mut i: usize = 0;
        while i < n
            invariant
                self.wf(),
                n == self.notes@.len(),
                i <= n,
                forall|j: int| 0 <= j < i ==> (#[trigger] self.notes@[j]).id != nid,
            decreases n - i,
        {
            if self.notes[i].id == nid {
                proof {
                    let p = |t: Note| t.id == nid;
                    assert(at_most_one(self.notes@, p));
                    assert(self.notes@.contains(self.notes@[i as int]));
                    lemma_lookup_found(self.notes@, p, self.notes@[i as int]);
                }
                return Some(&self.notes[i]);
            }
            i += 1;
        }
        proof {
            lemma_lookup_none(self.notes@, |t: Note| t.id == nid);
        }
        None
    }

    /// Looks up the grant for a user/board pair.
    pub fn get_permission(&self, uid: i32, bid: i32) -> (r: Option<Permission>)
        requires
            self.wf(),
        ensures
            r == grant_for(self.permissions@, uid, bid),
    {
        let n = self.permissions.len();
        let mut i: usize = 0;
        while i < n
            invariant
                self.wf(),
                n == self.permissions@.len(),
                i <= n,
                forall|j: int|
                    0 <= j < i ==> !((#[trigger] self.permissions@[j]).user_id == uid
                        && self.permissions@[j].board_id == bid),
            decreases n - i,
        {
            if self.permissions[i].user_id == uid && self.permissions[i].board_id == bid {
                proof {
                    let p = |g: Permission| g.user_id == uid && g.board_id == bid;
                    assert(at_most_one(self.permissions@, p));
                    assert(self.permissions@.contains(self.permissions@[i as int]));
                    lemma_lookup_found(self.permissions@, p, self.permissions@[i as int]);
                }
                return Some(self.permissions[i]);
            }
            i += 1;
        }
        proof {
            lemma_lookup_none(
                self.permissions@,
                |g: Permission| g.user_id == uid && g.board_id == bid,
            );
        }
        None
    }

    /// Lists the grants on a board.
    pub fn list_permissions_for_board(&self, bid: i32) -> (r: Vec<Permission>)
        ensures
            r@ == board_grants(self.permissions@, bid),
    {
        let ghost f = keep_board_grant(bid);
        let n = self.permissions.len();
        let mut out: Vec<Permission> = Vec::new();
        let mut i: usize = 0;
        while i < n
            invariant
                n == self.permissions@.len(),
                i <= n,
                out@ == self.permissions@.take(i as int).filter_map(f),
                f == keep_board_grant(bid),
            decreases n - i,
        {
            proof {
                self.permissions@.lemma_filter_map_take_succ(f, i as int);
            }
            if self.permissions[i].board_id == bid {
                out.push(self.permissions[i]);
            }
            i += 1;
        }
        proof {
            assert(self.permissions@.take(n as int) =~= self.permissions@);
        }
        out
    }

    /// Lists the grants held by a user.
    pub fn list_permissions_for_user(&self, uid: i32) -> (r: Vec<Permission>)
        ensures
            r@ == user_grants(self.permissions@, uid),
    {
        let ghost f = keep_user_grant(uid);
        let n = self.permissions.len();
        let mut out: Vec<Permission> = Vec::new();
        let mut i: usize = 0;
        while i < n
            invariant
                n == self.permissions@.len(),
                i <= n,
                out@ == self.permissions@.take(i as int).filter_map(f),
                f == keep_user_grant(uid),
            decreases n - i,
        {
            proof {
                self.permissions@.lemma_filter_map_take_succ(f, i as int);
            }
            if self.permissions[i].user_id == uid {
                out.push(self.permissions[i]);
            }
            i += 1;
        }
        proof {
            assert(self.permissions@.take(n as int) =~= self.permissions@);
        }
        out
    }

    /// Lists the identifiers of the notes on a board.
    pub fn list_note_ids_for_board(&self, bid: i32) -> (r: Vec<i32>)
        ensures
            r@ == board_note_ids(self.notes@, bid),
    {
        let ghost f = keep_board_note_id(bid);
        let n = self.notes.len();
        let mut out: Vec<i32> = Vec::new();
        let mut i: usize = 0;
        while i < n
            invariant
                n == self.notes@.len(),
                i <= n,
                out@ == self.notes@.take(i as int).filter_map(f),
                f == keep_board_note_id(bid),
            decreases n - i,
        {
            proof {
                self.notes@.lemma_filter_map_take_succ(f, i as int);
            }
            if self.notes[i].board_id == bid {
                out.push(self.notes[i].id);
            }
            i += 1;
        }
        proof {
            assert(self.notes@.take(n as int) =~= self.notes@);
        }
        out
    }

    /// Lists the identifiers of the boards a user owns.
    pub fn list_board_ids_owned_by(&self, uid: i32) -> (r: Vec<i32>)
        ensures
            r@ == owned_board_ids(self.boards@, uid),
    {
        let ghost f = keep_owned_board_id(uid);
        let n = self.boards.len();
        let mut out: Vec<i32> = Vec::new();
        let mut i: usize = 0;
        while i < n
            invariant
                n == self.boards@.len(),
                i <= n,
                out@ == self.boards@.take(i as int).filter_map(f),
                f == keep_owned_board_id(uid),
            decreases n - i,
        {
            proof {
                self.boards@.lemma_filter_map_take_succ(f, i as int);
            }
            if self.boards[i].user_id == uid {
                out.push(self.boards[i].id);
            }
            i += 1;
        }
        proof {
            assert(self.boards@.take(n as int) =~= self.boards@);
        }
        out
    }

    /// Lists the identifiers of the notes a user authored.
    pub fn list_note_ids_authored_by(&self, uid: i32) -> (r: Vec<i32>)
        ensures
            r@ == authored_note_ids(self.notes@, uid),
    {
        let ghost f = keep_authored_note_id(uid);
        let n = self.notes.len();
        let mut out: Vec<i32> = Vec::new();
        let mut i: usize = 0;
        while i < n
            invariant
                n == self.notes@.len(),
                i <= n,
                out@ == self.notes@.take(i as int).filter_map(f),
                f == keep_authored_note_id(uid),
            decreases n - i,
        {
            proof {
                self.notes@.lemma_filter_map_take_succ(f, i as int);
            }
            if self.notes[i].user_id == uid {
                out.push(self.notes[i].id);
            }
            i += 1;
        }
        proof {
            assert(self.notes@.take(n as int) =~= self.notes@);
        }
        out
    }

    /// Lists every user's identifier.
    pub fn list_user_ids(&self) -> (r: Vec<i32>)
        ensures
            r@ == user_ids_of(self.users@),
    {
        let ghost f = keep_user_id();
        let n = self.users.len();
        let mut out: Vec<i32> = Vec::new();
        let mut i: usize = 0;
        while i < n
            invariant
                n == self.users@.len(),
                i <= n,
                out@ == self.users@.take(i as int).filter_map(f),
                f == keep_user_id(),
            decreases n - i,
        {
            proof {
                self.users@.lemma_filter_map_take_succ(f, i as int);
            }
            out.push(self.users[i].id);
            i += 1;
        }
        proof {
            assert(self.users@.take(n as int) =~= self.users@);
        }
        out
    }

    /// Lists the identifiers of the users invited to a board.
    pub fn list_invited_user_ids(&self, bid: i32) -> (r: Vec<i32>)
        ensures
            r@ == invited_user_ids(self.permissions@, bid),
    {
        let ghost f = keep_invited_user_id(bid);
        let n = self.permissions.len();
        let mut out: Vec<i32> = Vec::new();
        let mut i: usize = 0;
        while i < n
            invariant
                n == self.permissions@.len(),
                i <= n,
                out@ == self.permissions@.take(i as int).filter_map(f),
                f == keep_invited_user_id(bid),
            decreases n - i,
        {
            proof {
                self.permissions@.lemma_filter_map_take_succ(f, i as int);
            }
            if self.permissions[i].board_id == bid {
                out.push(self.permissions[i].user_id);
            }
            i += 1;
        }
        proof {
            assert(self.permissions@.take(n as int) =~= self.permissions@);
        }
        out
    }

    /// Lists the identifiers of the boards a user may view: those the user
    /// owns and those the user holds any grant on.
    pub fn viewable_board_ids(&self, uid: i32) -> (r: Vec<i32>)
        requires
            self.wf(),
        ensures
            r@ == viewable_ids(self.boards@, self.permissions@, uid),
    {
        let ghost f = keep_viewable_id(self.permissions@, uid);
        let n = self.boards.len();
        let mut out: Vec<i32> = Vec::new();
        let mut i: usize = 0;
        while i < n
            invariant
                self.wf(),
                n == self.boards@.len(),
                i <= n,
                out@ == self.boards@.take(i as int).filter_map(f),
                f == keep_viewable_id(self.permissions@, uid),
            decreases n - i,
        {
            proof {
                self.boards@.lemma_filter_map_take_succ(f, i as int);
            }
            let b_owner = self.boards[i].user_id;
            let b_id = self.boards[i].id;
            if b_owner == uid || self.get_permission(uid, b_id).is_some() {
                out.push(b_id);
            }
            i += 1;
        }
        proof {
            assert(self.boards@.take(n as int) =~= self.boards@);
        }
        out
    }

    /// Creates or refreshes the user for a provider identity: the upsert
    /// keyed on `nu.oauth_id` that a successful login performs. An
    /// existing user keeps their identifier and gets the new credential
    /// digest and email; a new user is appended under a fresh identifier.
    /// Returns the user's identifier either way.
    pub fn upsert_user(&mut self, nu: NewUser) -> (uid: i32)
        requires
            old(self).wf(),
            old(self).next_user_id < i32::MAX,
        ensures
            final(self).wf(),
            final(self).boards@ == old(self).boards@,
            final(self).notes@ == old(self).notes@,
            final(self).permissions@ == old(self).permissions@,
            final(self).next_board_id == old(self).next_board_id,
            final(self).next_note_id == old(self).next_note_id,
            final(self).next_permission_id == old(self).next_permission_id,
            match user_by_oauth(old(self).users@, nu.oauth_id) {
                Some(u) => {
                    &&& uid == u.id
                    &&& final(self).next_user_id == old(self).next_user_id
                    &&& exists|i: int|
                        {
                            &&& 0 <= i < old(self).users@.len()
                            &&& old(self).users@[i] == u
                            &&& final(self).users@ == old(self).users@.update(
                                i,
                                User {
                                    oauth_id: nu.oauth_id,
                                    oauth_token: nu.oauth_token,
                                    email: nu.email,
                                    id: u.id,
                                },
                            )
                        }
                },
                None => {
                    &&& uid == old(self).next_user_id
                    &&& final(self).next_user_id == old(self).next_user_id + 1
                    &&& final(self).users@ == old(self).users@.push(
                        User {
                            oauth_id: nu.oauth_id,
                            oauth_token: nu.oauth_token,
                            email: nu.email,
                            id: uid,
                        },
                    )
                },
            },
    {
        let NewUser { oauth_id, oauth_token, email } = nu;
        let n = self.users.len();
        let mut i: usize = 0;
        while i < n
            invariant
                *self == *old(self),
                old(self).wf(),
                oauth_id == nu.oauth_id,
                oauth_token == nu.oauth_token,
                email == nu.email,
                n == self.users@.len(),
                i <= n,
                forall|j: int| 0 <= j < i ==> (#[trigger] self.users@[j]).oauth_id != oauth_id,
            decreases n - i,
        {
            if self.users[i].oauth_id == oauth_id {
                let id = self.users[i].id;
                proof {
                    let p = |u: User| u.oauth_id == oauth_id;
                    assert(at_most_one(self.users@, p));
                    assert(self.users@.contains(self.users@[i as int]));
                    lemma_lookup_found(self.users@, p, self.users@[i as int]);
                }
                self.users[i] = User { oauth_id, oauth_token, email, id };
                proof {
                    let s = self.users@;
                    let olds = old(self).users@;
                    assert forall|k: int| 0 <= k < s.len() implies (#[trigger] s[k]).id
                        == olds[k].id && s[k].oauth_id == olds[k].oauth_id by {
                        if k != i as int {
                            assert(s[k] == olds[k]);
                        }
                    }
                    assert(forall|x: i32| has_user(olds, x) ==> has_user(s, x)) by {
                        assert forall|x: i32| has_user(olds, x) implies has_user(s, x) by {
                            let m = choose|m: int| 0 <= m < olds.len() && olds[m].id == x;
                            assert(s[m].id == x);
                        }
                    }
                    assert(self.wf());
                }
                return id;
            }
            i += 1;
        }
        proof {
            lemma_lookup_none(self.users@, |u: User| u.oauth_id == oauth_id);
        }
        let id = self.next_user_id;
        self.users.push(User { oauth_id, oauth_token, email, id });
        self.next_user_id = self.next_user_id + 1;
        proof {
            let s = self.users@;
            let olds = old(self).users@;
            assert(forall|k: int| 0 <= k < olds.len() ==> #[trigger] s[k] == olds[k]);
            assert(forall|x: i32| has_user(olds, x) ==> has_user(s, x)) by {
                assert forall|x: i32| has_user(olds, x) implies has_user(s, x) by {
                    let m = choose|m: int| 0 <= m < olds.len() && olds[m].id == x;
                    assert(s[m].id == x);
                }
            }
            assert(self.wf());
        }
        id
    }

    /// Creates a board owned by `owner_id` and, atomically with it, the
    /// owner's full-rights grant on the new board.
    pub fn create_board(&mut self, owner_id: i32, title: String, visibility: i16) -> (b: Board)
        requires
            old(self).wf(),
            has_user(old(self).users@, owner_id),
            old(self).next_board_id < i32::MAX,
            old(self).next_permission_id < i32::MAX,
        ensures
            final(self).wf(),
            b == (Board { id: old(self).next_board_id, user_id: owner_id, title, visibility }),
            final(self).boards@ == old(self).boards@.push(b),
            final(self).permissions@ == old(self).permissions@.push(
                Permission {
                    id: old(self).next_permission_id,
                    user_id: owner_id,
                    board_id: b.id,
                    read: true,
                    write: true,
                },
            ),
            final(self).next_board_id == old(self).next_board_id + 1,
            final(self).next_permission_id == old(self).next_permission_id + 1,
            final(self).users@ == old(self).users@,
            final(self).notes@ == old(self).notes@,
            final(self).next_user_id == old(self).next_user_id,
            final(self).next_note_id == old(self).next_note_id,
    {
        let bid = self.next_board_id;
        let board = Board { id: bid, user_id: owner_id, title, visibility };
        let out = board.clone();
        self.boards.push(board);
        self.next_board_id = self.next_board_id + 1;
        let grant = Permission {
            id: self.next_permission_id,
            user_id: owner_id,
            board_id: bid,
            read: true,
            write: true,
        };
        self.permissions.push(grant);
        self.next_permission_id = self.next_permission_id + 1;
        proof {
            let oldboards = old(self).boards@;
            let oldperms = old(self).permissions@;
            assert(forall|k: int| 0 <= k < oldboards.len() ==> self.boards@[k] == oldboards[k]);
            assert(forall|k: int| 0 <= k < oldperms.len() ==> self.permissions@[k] == oldperms[k]);
            // No old grant refers to the new board: every old grant's board
            // exists in the old table, where identifiers sit below the counter.
            assert(forall|k: int|
                0 <= k < oldperms.len() ==> (#[trigger] oldperms[k]).board_id != bid) by {
                assert forall|k: int| 0 <= k < oldperms.len() implies (#[trigger] oldperms[k]).board_id
                    != bid by {
                    assert(has_board(oldboards, oldperms[k].board_id));
                    let bi = choose|m: int|
                        0 <= m < oldboards.len() && oldboards[m].id == oldperms[k].board_id;
                    assert(oldboards[bi].id < bid);
                }
            }
            assert(has_board(self.boards@, bid)) by {
                assert(self.boards@[oldboards.len() as int].id == bid);
            }
            assert(forall|k: int|
                0 <= k < self.notes@.len() ==> has_board(
                    self.boards@,
                    (#[trigger] self.notes@[k]).board_id,
                )) by {
                assert forall|k: int| 0 <= k < self.notes@.len() implies has_board(
                    self.boards@,
                    (#[trigger] self.notes@[k]).board_id,
                ) by {
                    assert(has_board(oldboards, self.notes@[k].board_id));
                    let bi = choose|m: int|
                        0 <= m < oldboards.len() && oldboards[m].id == self.notes@[k].board_id;
                    assert(self.boards@[bi].id == self.notes@[k].board_id);
                }
            }
            assert(forall|k: int|
                0 <= k < self.permissions@.len() ==> has_board(
                    self.boards@,
                    (#[trigger] self.permissions@[k]).board_id,
                )) by {
                assert forall|k: int| 0 <= k < self.permissions@.len() implies has_board(
                    self.boards@,
                    (#[trigger] self.permissions@[k]).board_id,
                ) by {
                    if k < oldperms.len() {
                        assert(has_board(oldboards, self.permissions@[k].board_id));
                        let bi = choose|m: int|
                            0 <= m < oldboards.len() && oldboards[m].id
                                == self.permissions@[k].board_id;
                        assert(self.boards@[bi].id == self.permissions@[k].board_id);
                    } else {
                        assert(self.permissions@[k].board_id == bid);
                    }
                }
            }
            assert(self.wf());
        }
        out
    }

    /// Creates or refreshes the grant for a user/board pair: an existing
    /// grant keeps its identifier and gets the new flags; otherwise a grant
    /// is appended under a fresh identifier. Returns the grant either way.
    pub fn insert_permission(&mut self, np: NewPermission) -> (g: Permission)
        requires
            old(self).wf(),
            has_user(old(self).users@, np.user_id),
            has_board(old(self).boards@, np.board_id),
            old(self).next_permission_id < i32::MAX,
        ensures
            final(self).wf(),
            final(self).users@ == old(self).users@,
            final(self).boards@ == old(self).boards@,
            final(self).notes@ == old(self).notes@,
            final(self).next_user_id == old(self).next_user_id,
            final(self).next_board_id == old(self).next_board_id,
            final(self).next_note_id == old(self).next_note_id,
            g.user_id == np.user_id && g.board_id == np.board_id && g.read == np.read && g.write
                == np.write,
            match grant_for(old(self).permissions@, np.user_id, np.board_id) {
                Some(p0) => {
                    &&& g.id == p0.id
                    &&& final(self).next_permission_id == old(self).next_permission_id
                    &&& exists|i: int|
                        {
                            &&& 0 <= i < old(self).permissions@.len()
                            &&& old(self).permissions@[i] == p0
                            &&& final(self).permissions@ == old(self).permissions@.update(i, g)
                        }
                },
                None => {
                    &&& g.id == old(self).next_permission_id
                    &&& final(self).next_permission_id == old(self).next_permission_id + 1
                    &&& final(self).permissions@ == old(self).permissions@.push(g)
                },
            },
    {
        let n = self.permissions.len();
        let mut i: usize = 0;
        while i < n
            invariant
                *self == *old(self),
                old(self).wf(),
                n == self.permissions@.len(),
                i <= n,
                forall|j: int|
                    0 <= j < i ==> !((#[trigger] self.permissions@[j]).user_id == np.user_id
                        && self.permissions@[j].board_id == np.board_id),
            decreases n - i,
        {
            if self.permissions[i].user_id == np.user_id && self.permissions[i].board_id
                == np.board_id {
                let g = Permission {
                    id: self.permissions[i].id,
                    user_id: np.user_id,
                    board_id: np.board_id,
                    read: np.read,
                    write: np.write,
                };
                proof {
                    let p = |q: Permission| q.user_id == np.user_id && q.board_id == np.board_id;
                    assert(at_most_one(self.permissions@, p));
                    assert(self.permissions@.contains(self.permissions@[i as int]));
                    lemma_lookup_found(self.permissions@, p, self.permissions@[i as int]);
                }
                self.permissions[i] = g;
                proof {
                    let s = self.permissions@;
                    let olds = old(self).permissions@;
                    assert forall|k: int| 0 <= k < s.len() implies (#[trigger] s[k]).id
                        == olds[k].id && s[k].user_id == olds[k].user_id && s[k].board_id
                        == olds[k].board_id by {
                        if k != i as int {
                            assert(s[k] == olds[k]);
                        }
                    }
                    assert(self.wf());
                }
                return g;
            }
            i += 1;
        }
        proof {
            lemma_lookup_none(
                self.permissions@,
                |q: Permission| q.user_id == np.user_id && q.board_id == np.board_id,
            );
        }
        let g = Permission {
            id: self.next_permission_id,
            user_id: np.user_id,
            board_id: np.board_id,
            read: np.read,
            write: np.write,
        };
        self.permissions.push(g);
        self.next_permission_id = self.next_permission_id + 1;
        proof {
            let s = self.permissions@;
            let olds = old(self).permissions@;
            assert(forall|k: int| 0 <= k < olds.len() ==> #[trigger] s[k] == olds[k]);
            assert(self.wf());
        }
        g
    }

    /// Appends a note under a fresh identifier and returns it.
    pub fn insert_note(&mut self, nn: NewNote) -> (n: Note)
        requires
            old(self).wf(),
            has_user(old(self).users@, nn.user_id),
            has_board(old(self).boards@, nn.board_id),
            old(self).next_note_id < i32::MAX,
        ensures
            final(self).wf(),
            n == (Note {
                id: old(self).next_note_id,
                user_id: nn.user_id,
                board_id: nn.board_id,
                title: nn.title,
                body: nn.body,
            }),
            final(self).notes@ == old(self).notes@.push(n),
            final(self).next_note_id == old(self).next_note_id + 1,
            final(self).users@ == old(self).users@,
            final(self).boards@ == old(self).boards@,
            final(self).permissions@ == old(self).permissions@,
            final(self).next_user_id == old(self).next_user_id,
            final(self).next_board_id == old(self).next_board_id,
            final(self).next_permission_id == old(self).next_permission_id,
    {
        let note = Note {
            id: self.next_note_id,
            user_id: nn.user_id,
            board_id: nn.board_id,
            title: nn.title,
            body: nn.body,
        };
        let out = note.clone();
        self.notes.push(note);
        self.next_note_id = self.next_note_id + 1;
        proof {
            let s = self.notes@;
            let olds = old(self).notes@;
            assert(forall|k: int| 0 <= k < olds.len() ==> #[trigger] s[k] == olds[k]);
            assert(self.wf());
        }
        out
    }

    /// Replaces the board whose identifier equals `b.id` with `b`.
    pub fn update_board(&mut self, b: Board)
        requires
            old(self).wf(),
            has_board(old(self).boards@, b.id),
            has_user(old(self).users@, b.user_id),
        ensures
            final(self).wf(),
            exists|i: int|
                {
                    &&& 0 <= i < old(self).boards@.len()
                    &&& old(self).boards@[i].id == b.id
                    &&& final(self).boards@ == old(self).boards@.update(i, b)
                },
            final(self).users@ == old(self).users@,
            final(self).notes@ == old(self).notes@,
            final(self).permissions@ == old(self).permissions@,
            final(self).next_user_id == old(self).next_user_id,
            final(self).next_board_id == old(self).next_board_id,
            final(self).next_note_id == old(self).next_note_id,
            final(self).next_permission_id == old(self).next_permission_id,
    {
        let n = self.boards.len();
        let mut i: usize = 0;
        while i < n
            invariant
                *self == *old(self),
                old(self).wf(),
                has_board(old(self).boards@, b.id),
                has_user(old(self).users@, b.user_id),
                n == self.boards@.len(),
                i <= n,
                forall|j: int| 0 <= j < i ==> (#[trigger] self.boards@[j]).id != b.id,
            decreases n - i,
        {
            if self.boards[i].id == b.id {
                self.boards[i] = b;
                proof {
                    let s = self.boards@;
                    let olds = old(self).boards@;
                    assert forall|k: int| 0 <= k < s.len() implies (#[trigger] s[k]).id
                        == olds[k].id by {
                        if k != i as int {
                            assert(s[k] == olds[k]);
                        }
                    }
                    assert forall|k: int| 0 <= k < s.len() implies has_user(
                        self.users@,
                        (#[trigger] s[k]).user_id,
                    ) by {
                        assert(self.users@ == old(self).users@);
                        if k != i as int {
                            assert(s[k] == olds[k]);
                            assert(has_user(old(self).users@, olds[k].user_id));
                        } else {
                            assert(s[k] == b);
                            assert(has_user(old(self).users@, b.user_id));
                        }
                    }
                    assert forall|k: int| 0 <= k < self.notes@.len() implies has_board(
                        s,
                        (#[trigger] self.notes@[k]).board_id,
                    ) by {
                        assert(has_board(olds, old(self).notes@[k].board_id));
                        let m = choose|m: int|
                            0 <= m < olds.len() && olds[m].id == self.notes@[k].board_id;
                        assert(s[m].id == self.notes@[k].board_id);
                    }
                    assert forall|k: int| 0 <= k < self.permissions@.len() implies has_board(
                        s,
                        (#[trigger] self.permissions@[k]).board_id,
                    ) by {
                        assert(has_board(olds, old(self).permissions@[k].board_id));
                        let m = choose|m: int|
                            0 <= m < olds.len() && olds[m].id == self.permissions@[k].board_id;
                        assert(s[m].id == self.permissions@[k].board_id);
                    }
                    assert(self.wf());
                }
                return ;
            }
            i += 1;
        }
        proof {
            let m = choose|m: int|
                0 <= m < old(self).boards@.len() && old(self).boards@[m].id == b.id;
            assert(false);
        }
    }

    /// Replaces the note whose identifier equals `nv.id` with `nv`.
    pub fn update_note(&mut self, nv: Note)
        requires
            old(self).wf(),
            exists|i: int| 0 <= i < old(self).notes@.len() && old(self).notes@[i].id == nv.id,
            has_board(old(self).boards@, nv.board_id),
            has_user(old(self).users@, nv.user_id),
        ensures
            final(self).wf(),
            exists|i: int|
                {
                    &&& 0 <= i < old(self).notes@.len()
                    &&& old(self).notes@[i].id == nv.id
                    &&& final(self).notes@ == old(self).notes@.update(i, nv)
                },
            final(self).users@ == old(self).users@,
            final(self).boards@ == old(self).boards@,
            final(self).permissions@ == old(self).permissions@,
            final(self).next_user_id == old(self).next_user_id,
            final(self).next_board_id == old(self).next_board_id,
            final(self).next_note_id == old(self).next_note_id,
            final(self).next_permission_id == old(self).next_permission_id,
    {
        let n = self.notes.len();
        let mut i: usize = 0;
        while i < n
            invariant
                *self == *old(self),
                old(self).wf(),
                exists|k: int| 0 <= k < old(self).notes@.len() && old(self).notes@[k].id == nv.id,
                has_board(old(self).boards@, nv.board_id),
                has_user(old(self).users@, nv.user_id),
                n == self.notes@.len(),
                i <= n,
                forall|j: int| 0 <= j < i ==> (#[trigger] self.notes@[j]).id != nv.id,
            decreases n - i,
        {
            if self.notes[i].id == nv.id {
                self.notes[i] = nv;
                proof {
                    let s = self.notes@;
                    let olds = old(self).notes@;
                    assert forall|k: int| 0 <= k < s.len() implies (#[trigger] s[k]).id
                        == olds[k].id by {
                        if k != i as int {
                            assert(s[k] == olds[k]);
                        }
                    }
                    assert forall|k: int| 0 <= k < s.len() implies has_board(
                        self.boards@,
                        (#[trigger] s[k]).board_id,
                    ) && has_user(self.users@, s[k].user_id) by {
                        assert(self.boards@ == old(self).boards@);
                        assert(self.users@ == old(self).users@);
                        if k != i as int {
                            assert(s[k] == olds[k]);
                            assert(has_board(old(self).boards@, olds[k].board_id));
                            assert(has_user(old(self).users@, olds[k].user_id));
                        } else {
                            assert(s[k] == nv);
                            assert(has_board(old(self).boards@, nv.board_id));
                            assert(has_user(old(self).users@, nv.user_id));
                        }
                    }
                    assert(self.wf());
                }
                return ;
            }
            i += 1;
        }
        proof {
            let m = choose|m: int|
                0 <= m < old(self).notes@.len() && old(self).notes@[m].id == nv.id;
            assert(false);
        }
    }

    /// Deletes a board together with every note and every grant on it, in
    /// one step: afterwards no note and no grant references the board, and
    /// nothing else has changed.
    pub fn delete_board_cascade(&mut self, bid: i32)
        requires
            old(self).wf(),
        ensures
            final(self).wf(),
            final(self).boards@ == old(self).boards@.filter_map(keep_other_board(bid)),
            final(self).notes@ == old(self).notes@.filter_map(keep_note_off_board(bid)),
            final(self).permissions@ == old(self).permissions@.filter_map(
                keep_grant_off_board(bid),
            ),
            !has_board(final(self).boards@, bid),
            forall|i: int|
                0 <= i < final(self).notes@.len() ==> (#[trigger] final(self).notes@[i]).board_id
                    != bid,
            forall|i: int|
                0 <= i < final(self).permissions@.len()
                    ==> (#[trigger] final(self).permissions@[i]).board_id != bid,
            final(self).users@ == old(self).users@,
            final(self).next_user_id == old(self).next_user_id,
            final(self).next_board_id == old(self).next_board_id,
            final(self).next_note_id == old(self).next_note_id,
            final(self).next_permission_id == old(self).next_permission_id,
    {
        let ghost fb = keep_other_board(bid);
        let ghost fn_ = keep_note_off_board(bid);
        let ghost fg = keep_grant_off_board(bid);

        let nb = self.boards.len();
        let mut kept_boards: Vec<Board> = Vec::new();
        let mut i: usize = 0;
        while i < nb
            invariant
                nb == self.boards@.len(),
                i <= nb,
                kept_boards@ == self.boards@.take(i as int).filter_map(fb),
                fb == keep_other_board(bid),
            decreases nb - i,
        {
            proof {
                self.boards@.lemma_filter_map_take_succ(fb, i as int);
            }
            if self.boards[i].id != bid {
                kept_boards.push(self.boards[i].clone());
            }
            i += 1;
        }

        let nn = self.notes.len();
        let mut kept_notes: Vec<Note> = Vec::new();
        let mut j: usize = 0;
        while j < nn
            invariant
                nn == self.notes@.len(),
                j <= nn,
                kept_notes@ == self.notes@.take(j as int).filter_map(fn_),
                fn_ == keep_note_off_board(bid),
            decreases nn - j,
        {
            proof {
                self.notes@.lemma_filter_map_take_succ(fn_, j as int);
            }
            if self.notes[j].board_id != bid {
                kept_notes.push(self.notes[j].clone());
            }
            j += 1;
        }

        let ng = self.permissions.len();
        let mut kept_grants: Vec<Permission> = Vec::new();
        let mut k: usize = 0;
        while k < ng
            invariant
                ng == self.permissions@.len(),
                k <= ng,
                kept_grants@ == self.permissions@.take(k as int).filter_map(fg),
                fg == keep_grant_off_board(bid),
            decreases ng - k,
        {
            proof {
                self.permissions@.lemma_filter_map_take_succ(fg, k as int);
            }
            if self.permissions[k].board_id != bid {
                kept_grants.push(self.permissions[k]);
            }
            k += 1;
        }

        proof {
            assert(self.boards@.take(nb as int) =~= self.boards@);
            assert(self.notes@.take(nn as int) =~= self.notes@);
            assert(self.permissions@.take(ng as int) =~= self.permissions@);
        }
        self.boards = kept_boards;
        self.notes = kept_notes;
        self.permissions = kept_grants;
        proof {
            let oldb = old(self).boards@;
            let oldn = old(self).notes@;
            let oldg = old(self).permissions@;
            let newb = self.boards@;
            let newn = self.notes@;
            let newg = self.permissions@;
            assert(forall|t: Board| (#[trigger] fb(t)) is Some ==> fb(t)->0 == t);
            assert(forall|t: Note| (#[trigger] fn_(t)) is Some ==> fn_(t)->0 == t);
            assert(forall|t: Permission| (#[trigger] fg(t)) is Some ==> fg(t)->0 == t);

            // Each kept row is an old row that the filter keeps.
            assert forall|m: int| 0 <= m < newb.len() implies oldb.contains(#[trigger] newb[m])
                && newb[m].id != bid by {
                assert(newb.contains(newb[m]));
                lemma_keep_contains(oldb, fb, newb[m]);
            }
            assert forall|m: int| 0 <= m < newn.len() implies oldn.contains(#[trigger] newn[m])
                && newn[m].board_id != bid by {
                assert(newn.contains(newn[m]));
                lemma_keep_contains(oldn, fn_, newn[m]);
            }
            assert forall|m: int| 0 <= m < newg.len() implies oldg.contains(#[trigger] newg[m])
                && newg[m].board_id != bid by {
                assert(newg.contains(newg[m]));
                lemma_keep_contains(oldg, fg, newg[m]);
            }

            // Identifier uniqueness survives the filters.
            let okb = |a: Board, b: Board| a.id != b.id;
            lemma_keep_pairwise(oldb, fb, okb);
            assert forall|m: int, p: int| 0 <= m < p < newb.len() implies newb[m].id != newb[p].id
                by {
                assert(okb(newb[m], newb[p]));
            }
            let okn = |a: Note, b: Note| a.id != b.id;
            lemma_keep_pairwise(oldn, fn_, okn);
            assert forall|m: int, p: int| 0 <= m < p < newn.len() implies newn[m].id != newn[p].id
                by {
                assert(okn(newn[m], newn[p]));
            }
            let okg = |a: Permission, b: Permission| a.id != b.id && !(a.user_id == b.user_id
                && a.board_id == b.board_id);
            assert(forall|m: int, p: int| 0 <= m < p < oldg.len() ==> #[trigger] okg(
                oldg[m],
                oldg[p],
            ));
            lemma_keep_pairwise(oldg, fg, okg);
            assert forall|m: int, p: int| 0 <= m < p < newg.len() implies newg[m].id != newg[p].id
                && !(newg[m].user_id == newg[p].user_id && newg[m].board_id == newg[p].board_id)
                by {
                assert(okg(newg[m], newg[p]));
            }

            // Per-row bounds and references carry over; a referenced board
            // other than the deleted one is itself kept.
            assert forall|m: int| 0 <= m < newb.len() implies (#[trigger] newb[m]).id
                < self.next_board_id && has_user(self.users@, newb[m].user_id) by {
                let w = choose|w: int| 0 <= w < oldb.len() && oldb[w] == newb[m];
                assert(oldb[w].id < old(self).next_board_id);
                assert(has_user(old(self).users@, oldb[w].user_id));
            }
            assert forall|x: i32|
                has_board(oldb, x) && x != bid implies has_board(newb, x) by {
                let w = choose|w: int| 0 <= w < oldb.len() && oldb[w].id == x;
                assert(fb(oldb[w]) is Some);
                lemma_filter_map_contains_fwd(oldb, fb, w);
                assert(newb.contains(oldb[w]));
                let v = choose|v: int| 0 <= v < newb.len() && newb[v] == oldb[w];
                assert(newb[v].id == x);
            }
            assert forall|m: int| 0 <= m < newn.len() implies (#[trigger] newn[m]).id
                < self.next_note_id && has_board(newb, newn[m].board_id) && has_user(
                self.users@,
                newn[m].user_id,
            ) by {
                let w = choose|w: int| 0 <= w < oldn.len() && oldn[w] == newn[m];
                assert(oldn[w].id < old(self).next_note_id);
                assert(has_board(oldb, oldn[w].board_id));
                assert(has_user(old(self).users@, oldn[w].user_id));
                assert(has_board(newb, newn[m].board_id));
            }
            assert forall|m: int| 0 <= m < newg.len() implies (#[trigger] newg[m]).id
                < self.next_permission_id && has_board(newb, newg[m].board_id) && has_user(
                self.users@,
                newg[m].user_id,
            ) by {
                let w = choose|w: int| 0 <= w < oldg.len() && oldg[w] == newg[m];
                assert(oldg[w].id < old(self).next_permission_id);
                assert(has_board(oldb, oldg[w].board_id));
                assert(has_user(old(self).users@, oldg[w].user_id));
                assert(has_board(newb, newg[m].board_id));
            }
            assert(self.wf());
        }
    }
}

} // verus!
