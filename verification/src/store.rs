//! The credential store: user records and verify-token records, with
//! single-operation contracts.
//!
//! This is the one shared mutable resource of the subsystem. Every
//! operation is a single atomic step on the in-memory state; multi-write
//! units of work are built on top of it by the credential service, which
//! applies either all of a group of writes or none.

use vstd::prelude::*;

verus! {

/// Role given to every account at creation.
pub open spec fn default_role() -> Seq<char> {
    "user"@
}

/// A stored user record.
pub struct UserReturn {
    pub id: u64,
    pub created_at: u64,
    pub username: String,
    pub is_verified: bool,
    pub email: String,
    pub role: String,
    pub password: String,
}

impl Clone for UserReturn {
    fn clone(&self) -> (r: Self)
        ensures
            r == *self,
    {
        UserReturn {
            id: self.id,
            created_at: self.created_at,
            username: self.username.clone(),
            is_verified: self.is_verified,
            email: self.email.clone(),
            role: self.role.clone(),
            password: self.password.clone(),
        }
    }
}

/// What a caller supplies to create a user.
pub struct NewUser {
    pub username: String,
    pub email: String,
    pub password: String,
}

/// A stored verify-token record.
pub struct VerifyTokenReturn {
    pub id: u64,
    pub created_at: u64,
    pub user: u64,
    pub valid_until: u64,
    pub token: u128,
}

impl Clone for VerifyTokenReturn {
    fn clone(&self) -> (r: Self)
        ensures
            r == *self,
    {
        VerifyTokenReturn {
            id: self.id,
            created_at: self.created_at,
            user: self.user,
            valid_until: self.valid_until,
            token: self.token,
        }
    }
}

/// What a caller supplies to create a verify token.
pub struct NewVerifyToken {
    pub valid_until: u64,
    pub token: u128,
    pub user: u64,
}

#[derive(Clone, Copy, PartialEq, Eq, Structural, Debug)]
pub enum UsersDBError {
    UserNotFound,
    /// Username or email uniqueness would be violated.
    Conflict,
}

#[derive(Clone, Copy, PartialEq, Eq, Structural, Debug)]
pub enum VerifyTokensDBError {
    VerifyTokenNotFound,
    /// Token-value uniqueness would be violated.
    Conflict,
}

/// Some stored user carries this username.
pub open spec fn username_taken(users: Seq<UserReturn>, name: Seq<char>) -> bool {
    exists|i: int| 0 <= i < users.len() && (#[trigger] users[i]).username@ == name
}

/// Some stored user carries this email.
pub open spec fn email_taken(users: Seq<UserReturn>, email: Seq<char>) -> bool {
    exists|i: int| 0 <= i < users.len() && (#[trigger] users[i]).email@ == email
}

/// Some stored user carries this id.
pub open spec fn user_id_present(users: Seq<UserReturn>, id: u64) -> bool {
    exists|i: int| 0 <= i < users.len() && (#[trigger] users[i]).id == id
}

/// Some stored token carries this value.
pub open spec fn token_value_present(tokens: Seq<VerifyTokenReturn>, value: u128) -> bool {
    exists|i: int| 0 <= i < tokens.len() && (#[trigger] tokens[i]).token == value
}

/// Some stored token carries this value and has not yet expired: the
/// redemption lookup treats everything else as absent.
pub open spec fn live_token_present(
    tokens: Seq<VerifyTokenReturn>,
    value: u128,
    now: u64,
) -> bool {
    exists|i: int|
        0 <= i < tokens.len() && (#[trigger] tokens[i]).token == value && tokens[i].valid_until
            > now
}

/// A token row survives a sweep at time `now` exactly when it is not yet
/// expired.
pub open spec fn unexpired_at(now: u64) -> spec_fn(VerifyTokenReturn) -> bool {
    |t: VerifyTokenReturn| t.valid_until > now
}

/// In-memory credential store. Identifiers are handed out from private
/// counters, so they are unique across the store's life; usernames,
/// emails and token values are kept unique by the insert operations.
pub struct CredentialStore {
    users: Vec<UserReturn>,
    tokens: Vec<VerifyTokenReturn>,
    next_user_id: u64,
    next_token_id: u64,
}

impl CredentialStore {
    /// The stored user records, in insertion order.
    pub closed spec fn users(self) -> Seq<UserReturn> {
        self.users@
    }

    /// The stored verify-token records, in insertion order.
    pub closed spec fn tokens(self) -> Seq<VerifyTokenReturn> {
        self.tokens@
    }

    /// Well-formedness: distinct ids, usernames and emails among users;
    /// distinct ids and token values among tokens; ids below the counters.
    pub closed spec fn wf(self) -> bool {
        &&& forall|i: int, j: int|
            0 <= i < j < self.users@.len() ==> (#[trigger] self.users@[i]).id
                != (#[trigger] self.users@[j]).id && self.users@[i].username@
                != self.users@[j].username@ && self.users@[i].email@ != self.users@[j].email@
        &&& forall|i: int|
            0 <= i < self.users@.len() ==> (#[trigger] self.users@[i]).id < self.next_user_id
        &&& forall|i: int, j: int|
            0 <= i < j < self.tokens@.len() ==> (#[trigger] self.tokens@[i]).id
                != (#[trigger] self.tokens@[j]).id && self.tokens@[i].token
                != self.tokens@[j].token
        &&& forall|i: int|
            0 <= i < self.tokens@.len() ==> (#[trigger] self.tokens@[i]).id < self.next_token_id
    }

    /// The user-id counter can still hand out a fresh id. Always true in
    /// practice; stated so that insertion can promise success exactly.
    pub closed spec fn user_ids_available(self) -> bool {
        self.next_user_id < u64::MAX
    }

    /// The token-id counter can still hand out a fresh id.
    pub closed spec fn token_ids_available(self) -> bool {
        self.next_token_id < u64::MAX
    }

    /// What well-formedness gives callers: ids, usernames and emails are
    /// pairwise distinct among users, ids and values among tokens.
    pub proof fn lemma_wf_unique(self)
        requires
            self.wf(),
        ensures
            forall|i: int, j: int|
                0 <= i < j < self.users().len() ==> (#[trigger] self.users()[i]).id
                    != (#[trigger] self.users()[j]).id && self.users()[i].username@
                    != self.users()[j].username@ && self.users()[i].email@
                    != self.users()[j].email@,
            forall|i: int, j: int|
                0 <= i < j < self.tokens().len() ==> (#[trigger] self.tokens()[i]).id
                    != (#[trigger] self.tokens()[j]).id && self.tokens()[i].token
                    != self.tokens()[j].token,
    {
    }

    pub fn new() -> (r: Self)
        ensures
            r.wf(),
            r.user_ids_available(),
            r.token_ids_available(),
            r.users() =~= Seq::<UserReturn>::empty(),
            r.tokens() =~= Seq::<VerifyTokenReturn>::empty(),
    {
        CredentialStore { users: Vec::new(), tokens: Vec::new(), next_user_id: 0, next_token_id: 0 }
    }

    /// Insert a new, unverified user with the default role; `Conflict`
    /// exactly when the username or the email is already taken.
    #[verifier::loop_isolation(false)]
    pub fn insert_new_user(&mut self, new_user: NewUser, now: u64) -> (r: Result<
        UserReturn,
        UsersDBError,
    >)
        requires
            old(self).wf(),
        ensures
            final(self).wf(),
            final(self).tokens() == old(self).tokens(),
            final(self).token_ids_available() == old(self).token_ids_available(),
            match r {
                Ok(u) => {
                    &&& !username_taken(old(self).users(), new_user.username@)
                    &&& !email_taken(old(self).users(), new_user.email@)
                    &&& old(self).user_ids_available()
                    &&& final(self).users() == old(self).users().push(u)
                    &&& u.username@ == new_user.username@
                    &&& u.email@ == new_user.email@
                    &&& u.password@ == new_user.password@
                    &&& u.is_verified == false
                    &&& u.role@ == default_role()
                    &&& u.created_at == now
                    &&& !user_id_present(old(self).users(), u.id)
                },
                Err(e) => {
                    &&& e == UsersDBError::Conflict
                    &&& (username_taken(old(self).users(), new_user.username@) || email_taken(
                        old(self).users(),
                        new_user.email@,
                    ) || !old(self).user_ids_available())
                    &&& final(self).users() == old(self).users()
                },
            },
    {
        let n = self.users.len();
        let mut i: usize = 0;
        while i < n
            invariant
                i <= n,
                n == self.users@.len(),
                forall|j: int|
                    0 <= j < i ==> (#[trigger] self.users@[j]).username@ != new_user.username@
                        && self.users@[j].email@ != new_user.email@,
            decreases n - i,
        {
            if self.users[i].username == new_user.username || self.users[i].email
                == new_user.email {
                return Err(UsersDBError::Conflict);
            }
            i = i + 1;
        }
        if self.next_user_id == u64::MAX {
            // The id counter is never exhausted in practice; refuse rather
            // than reuse an id.
            return Err(UsersDBError::Conflict);
        }
        let user = UserReturn {
            id: self.next_user_id,
            created_at: now,
            username: new_user.username,
            is_verified: false,
            email: new_user.email,
            role: role_string(),
            password: new_user.password,
        };
        let result = user.clone();
        self.next_user_id = self.next_user_id + 1;
        self.users.push(user);
        Ok(result)
    }

    /// Whether a user with this username and email could be inserted now:
    /// both free, and an id is left to assign.
    #[verifier::loop_isolation(false)]
    pub fn user_insertable(&self, username: &String, email: &String) -> (r: bool)
        ensures
            r == (!username_taken(self.users(), username@) && !email_taken(self.users(), email@)
                && self.user_ids_available()),
    {
        let n = self.users.len();
        let mut i: usize = 0;
        while i < n
            invariant
                i <= n,
                n == self.users@.len(),
                forall|j: int|
                    0 <= j < i ==> (#[trigger] self.users@[j]).username@ != username@
                        && self.users@[j].email@ != email@,
            decreases n - i,
        {
            if self.users[i].username == *username || self.users[i].email == *email {
                proof {
                    assert(self.users()[i as int].username@ == username@ || self.users()[
                        i as int
                    ].email@ == email@);
                }
                return false;
            }
            i = i + 1;
        }
        self.next_user_id < u64::MAX
    }

    /// Whether a verify token with this value could be inserted now: the
    /// value is free, and an id is left to assign.
    #[verifier::loop_isolation(false)]
    pub fn verify_token_insertable(&self, value: u128) -> (r: bool)
        ensures
            r == (!token_value_present(self.tokens(), value) && self.token_ids_available()),
    {
        let n = self.tokens.len();
        let mut i: usize = 0;
        while i < n
            invariant
                i <= n,
                n == self.tokens@.len(),
                forall|j: int| 0 <= j < i ==> (#[trigger] self.tokens@[j]).token != value,
            decreases n - i,
        {
            if self.tokens[i].token == value {
                proof {
                    assert(self.tokens()[i as int].token == value);
                }
                return false;
            }
            i = i + 1;
        }
        self.next_token_id < u64::MAX
    }

    /// Look a user up by username; `UserNotFound` exactly when no stored
    /// user carries it.
    #[verifier::loop_isolation(false)]
    pub fn get_user_by_username(&self, username: &String) -> (r: Result<UserReturn, UsersDBError>)
        ensures
            match r {
                Ok(u) => exists|i: int|
                    0 <= i < self.users().len() && #[trigger] self.users()[i] == u && u.username@
                        == username@,
                Err(e) => e == UsersDBError::UserNotFound && !username_taken(
                    self.users(),
                    username@,
                ),
            },
    {
        let n = self.users.len();
        let mut i: usize = 0;
        while i < n
            invariant
                i <= n,
                n == self.users@.len(),
                forall|j: int| 0 <= j < i ==> (#[trigger] self.users@[j]).username@ != username@,
            decreases n - i,
        {
            if self.users[i].username == *username {
                proof {
                    assert(self.users()[i as int].username@ == username@);
                }
                return Ok(self.users[i].clone());
            }
            i = i + 1;
        }
        Err(UsersDBError::UserNotFound)
    }

    /// Look a user up by id; `UserNotFound` exactly when no stored user
    /// carries it.
    #[verifier::loop_isolation(false)]
    pub fn get_user_by_id(&self, user_id: u64) -> (r: Result<UserReturn, UsersDBError>)
        ensures
            match r {
                Ok(u) => exists|i: int|
                    0 <= i < self.users().len() && #[trigger] self.users()[i] == u && u.id
                        == user_id,
                Err(e) => e == UsersDBError::UserNotFound && !user_id_present(
                    self.users(),
                    user_id,
                ),
            },
    {
        let n = self.users.len();
        let mut i: usize = 0;
        while i < n
            invariant
                i <= n,
                n == self.users@.len(),
                forall|j: int| 0 <= j < i ==> (#[trigger] self.users@[j]).id != user_id,
            decreases n - i,
        {
            if self.users[i].id == user_id {
                proof {
                    assert(self.users()[i as int].id == user_id);
                }
                return Ok(self.users[i].clone());
            }
            i = i + 1;
        }
        Err(UsersDBError::UserNotFound)
    }

    /// Report whether the user with this id is verified; `UserNotFound`
    /// exactly when the id is absent.
    pub fn is_user_verified(&self, user_id: u64) -> (r: Result<bool, UsersDBError>)
        ensures
            match r {
                Ok(b) => exists|i: int|
                    0 <= i < self.users().len() && (#[trigger] self.users()[i]).id == user_id
                        && self.users()[i].is_verified == b,
                Err(e) => e == UsersDBError::UserNotFound && !user_id_present(
                    self.users(),
                    user_id,
                ),
            },
    {
        match self.get_user_by_id(user_id) {
            Ok(user) => Ok(user.is_verified),
            Err(err) => Err(err),
        }
    }

    /// Flip the user with this id to verified, leaving every other field
    /// and every other record as it was; `UserNotFound` exactly when the
    /// id is absent, and then nothing changes.
    #[verifier::loop_isolation(false)]
    pub fn set_user_verified(&mut self, user_id: u64) -> (r: Result<(), UsersDBError>)
        requires
            old(self).wf(),
        ensures
            final(self).wf(),
            final(self).tokens() == old(self).tokens(),
            final(self).user_ids_available() == old(self).user_ids_available(),
            final(self).token_ids_available() == old(self).token_ids_available(),
            match r {
                Ok(()) => exists|i: int|
                    0 <= i < old(self).users().len() && (#[trigger] old(self).users()[i]).id
                        == user_id && final(self).users() == old(self).users().update(
                        i,
                        UserReturn { is_verified: true, ..old(self).users()[i] },
                    ),
                Err(e) => {
                    &&& e == UsersDBError::UserNotFound
                    &&& !user_id_present(old(self).users(), user_id)
                    &&& final(self).users() == old(self).users()
                },
            },
    {
        let n = self.users.len();
        let mut i: usize = 0;
        while i < n
            invariant
                i <= n,
                *self == *old(self),
                n == self.users@.len(),
                forall|j: int| 0 <= j < i ==> (#[trigger] self.users@[j]).id != user_id,
            decreases n - i,
        {
            if self.users[i].id == user_id {
                let mut u = self.users[i].clone();
                u.is_verified = true;
                proof {
                    assert(u == UserReturn { is_verified: true, ..old(self).users()[i as int] });
                }
                self.users[i] = u;
                proof {
                    let w = i as int;
                    let prev = old(self).users();
                    assert(self.users() == prev.update(
                        w,
                        UserReturn { is_verified: true, ..prev[w] },
                    ));
                    assert forall|a: int, b: int|
                        0 <= a < b < self.users@.len() implies (#[trigger] self.users@[a]).id
                        != (#[trigger] self.users@[b]).id && self.users@[a].username@
                        != self.users@[b].username@ && self.users@[a].email@
                        != self.users@[b].email@ by {
                        assert(prev[a].id != prev[b].id && prev[a].username@ != prev[b].username@
                            && prev[a].email@ != prev[b].email@);
                    }
                }
                return Ok(());
            }
            i = i + 1;
        }
        Err(UsersDBError::UserNotFound)
    }

    /// Insert a new verify token; `Conflict` exactly when the value is
    /// already stored, so live token values are unique.
    #[verifier::loop_isolation(false)]
    pub fn create_verify_token(&mut self, new_token: NewVerifyToken, now: u64) -> (r: Result<
        VerifyTokenReturn,
        VerifyTokensDBError,
    >)
        requires
            old(self).wf(),
        ensures
            final(self).wf(),
            final(self).users() == old(self).users(),
            final(self).user_ids_available() == old(self).user_ids_available(),
            match r {
                Ok(t) => {
                    &&& !token_value_present(old(self).tokens(), new_token.token)
                    &&& old(self).token_ids_available()
                    &&& final(self).tokens() == old(self).tokens().push(t)
                    &&& t.token == new_token.token
                    &&& t.user == new_token.user
                    &&& t.valid_until == new_token.valid_until
                    &&& t.created_at == now
                },
                Err(e) => {
                    &&& e == VerifyTokensDBError::Conflict
                    &&& (token_value_present(old(self).tokens(), new_token.token)
                        || !old(self).token_ids_available())
                    &&& final(self).tokens() == old(self).tokens()
                },
            },
    {
        let n = self.tokens.len();
        let mut i: usize = 0;
        while i < n
            invariant
                i <= n,
                n == self.tokens@.len(),
                forall|j: int| 0 <= j < i ==> (#[trigger] self.tokens@[j]).token != new_token.token,
            decreases n - i,
        {
            if self.tokens[i].token == new_token.token {
                return Err(VerifyTokensDBError::Conflict);
            }
            i = i + 1;
        }
        if self.next_token_id == u64::MAX {
            // As for user ids: never reached, refused rather than reused.
            return Err(VerifyTokensDBError::Conflict);
        }
        let token = VerifyTokenReturn {
            id: self.next_token_id,
            created_at: now,
            user: new_token.user,
            valid_until: new_token.valid_until,
            token: new_token.token,
        };
        let result = token.clone();
        self.next_token_id = self.next_token_id + 1;
        self.tokens.push(token);
        Ok(result)
    }

    /// Look a token up by value, treating an expired row exactly like an
    /// absent one: `Ok` iff a row with this value has `valid_until > now`.
    #[verifier::loop_isolation(false)]
    pub fn get_verify_token_by_value(&self, token: u128, now: u64) -> (r: Result<
        VerifyTokenReturn,
        VerifyTokensDBError,
    >)
        ensures
            match r {
                Ok(t) => exists|i: int|
                    0 <= i < self.tokens().len() && #[trigger] self.tokens()[i] == t && t.token
                        == token && t.valid_until > now,
                Err(e) => e == VerifyTokensDBError::VerifyTokenNotFound && !live_token_present(
                    self.tokens(),
                    token,
                    now,
                ),
            },
    {
        let n = self.tokens.len();
        let mut i: usize = 0;
        while i < n
            invariant
                i <= n,
                n == self.tokens@.len(),
                forall|j: int|
                    0 <= j < i ==> !((#[trigger] self.tokens@[j]).token == token
                        && self.tokens@[j].valid_until > now),
            decreases n - i,
        {
            if self.tokens[i].token == token && self.tokens[i].valid_until > now {
                proof {
                    assert(self.tokens()[i as int].token == token);
                }
                return Ok(self.tokens[i].clone());
            }
            i = i + 1;
        }
        Err(VerifyTokensDBError::VerifyTokenNotFound)
    }

    /// Delete the token with this id; `VerifyTokenNotFound` exactly when
    /// the id is absent, and then nothing changes.
    #[verifier::loop_isolation(false)]
    pub fn delete_verify_token_by_id(&mut self, token_id: u64) -> (r: Result<
        (),
        VerifyTokensDBError,
    >)
        requires
            old(self).wf(),
        ensures
            final(self).wf(),
            final(self).users() == old(self).users(),
            final(self).user_ids_available() == old(self).user_ids_available(),
            final(self).token_ids_available() == old(self).token_ids_available(),
            match r {
                Ok(()) => exists|i: int|
                    0 <= i < old(self).tokens().len() && (#[trigger] old(self).tokens()[i]).id
                        == token_id && final(self).tokens() == old(self).tokens().remove(i),
                Err(e) => {
                    &&& e == VerifyTokensDBError::VerifyTokenNotFound
                    &&& !(exists|i: int|
                        0 <= i < old(self).tokens().len() && (#[trigger] old(
                            self,
                        ).tokens()[i]).id == token_id)
                    &&& final(self).tokens() == old(self).tokens()
                },
            },
    {
        let n = self.tokens.len();
        let mut i: usize = 0;
        while i < n
            invariant
                i <= n,
                *self == *old(self),
                n == self.tokens@.len(),
                forall|j: int| 0 <= j < i ==> (#[trigger] self.tokens@[j]).id != token_id,
            decreases n - i,
        {
            if self.tokens[i].id == token_id {
                proof {
                    assert(self.tokens()[i as int].id == token_id);
                }
                self.tokens.remove(i);
                proof {
                    let w = i as int;
                    let prev = old(self).tokens();
                    prev.remove_ensures(w);
                    assert forall|a: int, b: int|
                        0 <= a < b < self.tokens@.len() implies (#[trigger] self.tokens@[a]).id
                        != (#[trigger] self.tokens@[b]).id && self.tokens@[a].token
                        != self.tokens@[b].token by {
                        let pa: int = if a < w { a } else { a + 1 };
                        let pb: int = if b < w { b } else { b + 1 };
                        assert(prev.remove(w)[a] == prev[pa]);
                        assert(prev.remove(w)[b] == prev[pb]);
                        assert(self.tokens@ == prev.remove(w));
                        assert(prev[pa].id != prev[pb].id && prev[pa].token != prev[pb].token);
                    }
                }
                return Ok(());
            }
            i = i + 1;
        }
        Err(VerifyTokensDBError::VerifyTokenNotFound)
    }

    /// Bulk-delete every token with `valid_until <= now`, leaving exactly
    /// the unexpired ones in their order; returns how many rows were
    /// removed. Never fails, also on zero matches.
    #[verifier::loop_isolation(false)]
    pub fn delete_expired_verify_tokens(&mut self, now: u64) -> (r: usize)
        requires
            old(self).wf(),
        ensures
            final(self).wf(),
            final(self).users() == old(self).users(),
            final(self).user_ids_available() == old(self).user_ids_available(),
            final(self).token_ids_available() == old(self).token_ids_available(),
            final(self).tokens() == old(self).tokens().filter(unexpired_at(now)),
            r == old(self).tokens().len() - final(self).tokens().len(),
    {
        let n = self.tokens.len();
        let mut kept: Vec<VerifyTokenReturn> = Vec::new();
        let mut i: usize = 0;
        proof {
            assert(self.tokens@.take(0) =~= Seq::<VerifyTokenReturn>::empty());
            reveal_with_fuel(Seq::filter, 2);
        }
        while i < n
            invariant
                i <= n,
                n == self.tokens@.len(),
                kept@ == self.tokens@.take(i as int).filter(unexpired_at(now)),
            decreases n - i,
        {
            proof {
                let prefix = self.tokens@.take(i as int);
                let t = self.tokens@[i as int];
                assert(self.tokens@.take(i as int + 1) =~= prefix + seq![t]);
                Seq::filter_distributes_over_add(prefix, seq![t], unexpired_at(now));
                reveal_with_fuel(Seq::filter, 2);
                assert(seq![t].drop_last() =~= Seq::<VerifyTokenReturn>::empty());
            }
            if self.tokens[i].valid_until > now {
                kept.push(self.tokens[i].clone());
            }
            i = i + 1;
        }
        proof {
            assert(self.tokens@.take(n as int) =~= self.tokens@);
            self.tokens@.lemma_filter_len(unexpired_at(now));
            lemma_filter_keeps_wf(self.tokens@, unexpired_at(now), self.next_token_id);
        }
        let removed = self.tokens.len() - kept.len();
        self.tokens = kept;
        removed
    }
}

/// Every element of a filtered sequence is an element of the original.
pub proof fn lemma_filter_elem_of<A>(s: Seq<A>, pred: spec_fn(A) -> bool)
    ensures
        forall|i: int|
            0 <= i < s.filter(pred).len() ==> exists|j: int|
                0 <= j < s.len() && #[trigger] s.filter(pred)[i] == s[j],
    decreases s.len(),
{
    reveal(Seq::filter);
    if s.len() > 0 {
        let prefix = s.drop_last();
        lemma_filter_elem_of(prefix, pred);
        let f = s.filter(pred);
        let fp = prefix.filter(pred);
        assert forall|i: int| 0 <= i < f.len() implies exists|j: int|
            0 <= j < s.len() && #[trigger] f[i] == s[j] by {
            if pred(s.last()) && i == f.len() - 1 {
                assert(f[i] == s[s.len() - 1]);
            } else {
                assert(f[i] == fp[i]);
                let j = choose|j: int| 0 <= j < prefix.len() && fp[i] == prefix[j];
                assert(f[i] == s[j]);
            }
        }
    }
}

/// Uniqueness and the id bound survive filtering, since every kept row is
/// one of the original rows and their order is kept.
proof fn lemma_filter_keeps_wf(
    tokens: Seq<VerifyTokenReturn>,
    pred: spec_fn(VerifyTokenReturn) -> bool,
    bound: u64,
)
    requires
        forall|i: int, j: int|
            0 <= i < j < tokens.len() ==> (#[trigger] tokens[i]).id != (#[trigger] tokens[j]).id
                && tokens[i].token != tokens[j].token,
        forall|i: int| 0 <= i < tokens.len() ==> (#[trigger] tokens[i]).id < bound,
    ensures
        forall|i: int, j: int|
            0 <= i < j < tokens.filter(pred).len() ==> (#[trigger] tokens.filter(pred)[i]).id
                != (#[trigger] tokens.filter(pred)[j]).id && tokens.filter(pred)[i].token
                != tokens.filter(pred)[j].token,
        forall|i: int| 0 <= i < tokens.filter(pred).len() ==> (#[trigger] tokens.filter(pred)[i]).id
            < bound,
    decreases tokens.len(),
{
    reveal(Seq::filter);
    lemma_filter_elem_of(tokens, pred);
    if tokens.len() > 0 {
        let prefix = tokens.drop_last();
        assert(forall|i: int| 0 <= i < prefix.len() ==> #[trigger] prefix[i] == tokens[i]);
        lemma_filter_keeps_wf(prefix, pred, bound);
        let f = tokens.filter(pred);
        let fp = prefix.filter(pred);
        if pred(tokens.last()) {
            assert(f == fp.push(tokens.last()));
            lemma_filter_elem_of(prefix, pred);
            assert forall|i: int| 0 <= i < f.len() - 1 implies (#[trigger] f[i]).id
                != tokens.last().id && f[i].token != tokens.last().token by {
                assert(f[i] == fp[i]);
                let j = choose|j: int| 0 <= j < prefix.len() && fp[i] == prefix[j];
                assert(tokens[j].id != tokens[tokens.len() - 1].id);
            }
        }
    }
}

/// The default role as an owned string.
fn role_string() -> (r: String)
    ensures
        r@ == default_role(),
{
    proof {
        reveal_strlit("user");
    }
    "user".to_owned()
}

} // verus!

