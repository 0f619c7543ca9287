//! The credential service: registration, authentication and verification
//! redemption over the credential store.
//!
//! Registration is all-or-nothing across its three effects (user row,
//! verify-token row, notification): `register_user` stages everything
//! without writing, the caller delivers the notification, and
//! `commit_registration` applies both rows only when the notification
//! went out — on any failure the store is exactly as it was.

use vstd::prelude::*;

use crate::hasher::{hash_password, password_verifies, verify_password};
use crate::store::{
    email_taken, live_token_present, token_value_present, user_id_present, username_taken,
    CredentialStore, NewUser, NewVerifyToken, UserReturn, UsersDBError, VerifyTokenReturn,
    VerifyTokensDBError,
};

verus! {

/// How long a verify token stays redeemable after issuance: one day.
pub const VERIFY_TOKEN_VALIDITY_SECS: u64 = 86400;

#[derive(Clone, Copy, PartialEq, Eq, Structural, Debug)]
pub enum UsersServiceError {
    UsersDBError(UsersDBError),
    VerifyTokensDBError(VerifyTokensDBError),
    InvalidUserPassword,
    UnknownError,
}

/// Relies on getrandom's `fill` for sixteen bytes from the OS random
/// source, shaped into a version-4 UUID by uuid's
/// `Builder::from_random_bytes`: a fresh token value with enough entropy
/// to be infeasible to guess, or a reported failure of the source — never
/// a panic. Nothing is promised of the value; the store enforces
/// uniqueness when the token row is inserted.
#[verifier::external_body]
pub(crate) fn new_token_value() -> (r: Result<u128, ()>) {
    let mut bytes = [0u8; 16];
    match getrandom::fill(&mut bytes) {
        Ok(()) => Ok(uuid::Builder::from_random_bytes(bytes).into_uuid().as_u128()),
        Err(_) => Err(()),
    }
}

/// The one-step transition of a successful redemption: some live row held
/// the value, its owner is flipped to verified, the row is gone, and
/// nothing else moved.
pub open spec fn spec_redeemed(
    pre_users: Seq<UserReturn>,
    pre_tokens: Seq<VerifyTokenReturn>,
    post_users: Seq<UserReturn>,
    post_tokens: Seq<VerifyTokenReturn>,
    token: u128,
    now: u64,
) -> bool {
    exists|ti: int, ui: int|
        {
            &&& 0 <= ti < pre_tokens.len()
            &&& 0 <= ui < pre_users.len()
            &&& (#[trigger] pre_tokens[ti]).token == token
            &&& pre_tokens[ti].valid_until > now
            &&& (#[trigger] pre_users[ui]).id == pre_tokens[ti].user
            &&& post_users == pre_users.update(
                ui,
                UserReturn { is_verified: true, ..pre_users[ui] },
            )
            &&& post_tokens == pre_tokens.remove(ti)
        }
}

/// A registration staged by `register_user` and not yet applied: the rows
/// to write and the notification to deliver.
pub struct PendingRegistration {
    pub username: String,
    pub email: String,
    pub password_hash: String,
    pub token_value: u128,
    pub valid_until: u64,
    pub created_at: u64,
}

pub struct UsersService {
    store: CredentialStore,
}

impl UsersService {
    /// The stored user records.
    pub closed spec fn users(self) -> Seq<UserReturn> {
        self.store.users()
    }

    /// The stored verify-token records.
    pub closed spec fn tokens(self) -> Seq<VerifyTokenReturn> {
        self.store.tokens()
    }

    pub closed spec fn wf(self) -> bool {
        self.store.wf()
    }

    /// A fresh user id can still be assigned; true in any run that does
    /// not exhaust a 64-bit counter.
    pub closed spec fn user_ids_available(self) -> bool {
        self.store.user_ids_available()
    }

    /// A fresh token id can still be assigned.
    pub closed spec fn token_ids_available(self) -> bool {
        self.store.token_ids_available()
    }

    /// Fresh ids of both kinds can still be assigned.
    pub open spec fn ids_available(self) -> bool {
        self.user_ids_available() && self.token_ids_available()
    }

    /// What well-formedness gives callers: ids, usernames and emails are
    /// pairwise distinct among users, ids and values among tokens.
    pub proof fn lemma_wf_unique(self)
        requires
            self.wf(),
        ensures
            forall|i: int, j: int|
                0 <= i < j < self.users().len() ==> (#[trigger] self.users()[i]).id
                    != (#[trigger] self.users()[j]).id && self.users()[i].username@
                    != self.users()[j].username@ && self.users()[i].email@
                    != self.users()[j].email@,
            forall|i: int, j: int|
                0 <= i < j < self.tokens().len() ==> (#[trigger] self.tokens()[i]).id
                    != (#[trigger] self.tokens()[j]).id && self.tokens()[i].token
                    != self.tokens()[j].token,
    {
        self.store.lemma_wf_unique();
        assert forall|i: int| 0 <= i < self.users().len() implies #[trigger] self.users()[i]
            == self.store.users()[i] by {}
        assert forall|i: int| 0 <= i < self.tokens().len() implies #[trigger] self.tokens()[i]
            == self.store.tokens()[i] by {}
    }

    pub fn init(store: CredentialStore) -> (r: Self)
        requires
            store.wf(),
        ensures
            r.wf(),
            r.users() == store.users(),
            r.tokens() == store.tokens(),
            r.ids_available() == (store.user_ids_available() && store.token_ids_available()),
    {
        UsersService { store }
    }

    /// Stage a registration: hash the password and check that the
    /// username, the email and the token value are free. Nothing is
    /// written; hashing failure surfaces as `UnknownError`, a taken
    /// username or email as a users `Conflict`, a taken token value as a
    /// verify-tokens `Conflict`.
    pub fn register_user(
        &self,
        username: String,
        email: String,
        password: String,
        token_value: u128,
        now: u64,
    ) -> (r: Result<PendingRegistration, UsersServiceError>)
        requires
            now + VERIFY_TOKEN_VALIDITY_SECS <= u64::MAX,
        ensures
            match r {
                Ok(p) => {
                    &&& !username_taken(self.users(), username@)
                    &&& !email_taken(self.users(), email@)
                    &&& !token_value_present(self.tokens(), token_value)
                    &&& self.ids_available()
                    &&& password_verifies(password@, p.password_hash@)
                    &&& p.username@ == username@
                    &&& p.email@ == email@
                    &&& p.token_value == token_value
                    &&& p.valid_until == now + VERIFY_TOKEN_VALIDITY_SECS
                    &&& p.created_at == now
                },
                Err(UsersServiceError::UsersDBError(e)) => e == UsersDBError::Conflict && (
                username_taken(self.users(), username@) || email_taken(self.users(), email@)
                    || !self.user_ids_available()),
                Err(UsersServiceError::VerifyTokensDBError(e)) => {
                    &&& e == VerifyTokensDBError::Conflict
                    &&& (token_value_present(self.tokens(), token_value)
                        || !self.token_ids_available())
                    &&& !username_taken(self.users(), username@)
                    &&& !email_taken(self.users(), email@)
                },
                Err(UsersServiceError::UnknownError) => true,
                Err(_) => false,
            },
    {
        let hashed = match hash_password(&password) {
            Ok(h) => h,
            Err(()) => {
                return Err(UsersServiceError::UnknownError);
            },
        };
        if !self.store.user_insertable(&username, &email) {
            return Err(UsersServiceError::UsersDBError(UsersDBError::Conflict));
        }
        if !self.store.verify_token_insertable(token_value) {
            return Err(UsersServiceError::VerifyTokensDBError(VerifyTokensDBError::Conflict));
        }
        Ok(
            PendingRegistration {
                username,
                email,
                password_hash: hashed,
                token_value,
                valid_until: now + VERIFY_TOKEN_VALIDITY_SECS,
                created_at: now,
            },
        )
    }

    /// Apply a staged registration, or nothing at all. When the
    /// notification was not delivered, or a conflict has appeared since
    /// staging, the store is exactly as before and an error reports why;
    /// otherwise both rows appear together and the created user is
    /// returned, unverified.
    pub fn commit_registration(&mut self, pending: PendingRegistration, mail_sent: bool) -> (r:
        Result<UserReturn, UsersServiceError>)
        requires
            old(self).wf(),
        ensures
            final(self).wf(),
            r is Err ==> *final(self) == *old(self),
            mail_sent && !username_taken(old(self).users(), pending.username@) && !email_taken(
                old(self).users(),
                pending.email@,
            ) && !token_value_present(old(self).tokens(), pending.token_value) && old(
                self,
            ).ids_available() ==> r is Ok,
            match r {
                Ok(u) => {
                    &&& mail_sent
                    &&& !username_taken(old(self).users(), pending.username@)
                    &&& !email_taken(old(self).users(), pending.email@)
                    &&& !token_value_present(old(self).tokens(), pending.token_value)
                    &&& final(self).users() == old(self).users().push(u)
                    &&& u.username@ == pending.username@
                    &&& u.email@ == pending.email@
                    &&& u.password@ == pending.password_hash@
                    &&& u.is_verified == false
                    &&& u.role@ == crate::store::default_role()
                    &&& u.created_at == pending.created_at
                    &&& !user_id_present(old(self).users(), u.id)
                    &&& exists|t: VerifyTokenReturn|
                        final(self).tokens() == old(self).tokens().push(t) && (#[trigger] t.token)
                            == pending.token_value && t.user == u.id && t.valid_until
                            == pending.valid_until && t.created_at == pending.created_at
                },
                Err(e) => {
                    &&& !mail_sent ==> e == UsersServiceError::UnknownError
                    &&& mail_sent ==> e != UsersServiceError::UnknownError
                    &&& e == UsersServiceError::UsersDBError(UsersDBError::Conflict) ==> (
                    username_taken(old(self).users(), pending.username@) || email_taken(
                        old(self).users(),
                        pending.email@,
                    ) || !old(self).user_ids_available())
                    &&& e == UsersServiceError::VerifyTokensDBError(VerifyTokensDBError::Conflict)
                        ==> (token_value_present(old(self).tokens(), pending.token_value) || !old(
                        self,
                    ).token_ids_available())
                    &&& (e == UsersServiceError::UnknownError || e
                        == UsersServiceError::UsersDBError(UsersDBError::Conflict) || e
                        == UsersServiceError::VerifyTokensDBError(VerifyTokensDBError::Conflict))
                },
            },
    {
        if !mail_sent {
            return Err(UsersServiceError::UnknownError);
        }
        if !self.store.user_insertable(&pending.username, &pending.email) {
            return Err(UsersServiceError::UsersDBError(UsersDBError::Conflict));
        }
        if !self.store.verify_token_insertable(pending.token_value) {
            return Err(UsersServiceError::VerifyTokensDBError(VerifyTokensDBError::Conflict));
        }
        let new_user = NewUser {
            username: pending.username,
            email: pending.email,
            password: pending.password_hash,
        };
        let user = match self.store.insert_new_user(new_user, pending.created_at) {
            Ok(u) => u,
            // Unreachable: the insertability check above rules a conflict out.
            Err(_) => {
                proof {
                    assert(false);
                }
                return Err(UsersServiceError::UsersDBError(UsersDBError::Conflict));
            },
        };
        let new_token = NewVerifyToken {
            valid_until: pending.valid_until,
            token: pending.token_value,
            user: user.id,
        };
        match self.store.create_verify_token(new_token, pending.created_at) {
            Ok(t) => {
                proof {
                    assert(self.tokens() == old(self).tokens().push(t) && t.token
                        == pending.token_value);
                }
                Ok(user)
            },
            // Unreachable: the insertability check above rules a conflict out,
            // and inserting the user does not touch the token table.
            Err(_) => {
                proof {
                    assert(false);
                }
                Err(UsersServiceError::VerifyTokensDBError(VerifyTokensDBError::Conflict))
            },
        }
    }

    /// Authenticate by username and password: the stored user is returned
    /// exactly when one with this username exists and the password
    /// verifies against its stored hash; every other outcome — unknown
    /// username or wrong password alike — is `InvalidUserPassword`.
    pub fn authenticate_user(&self, username: &String, password: &String) -> (r: Result<
        UserReturn,
        UsersServiceError,
    >)
        requires
            self.wf(),
        ensures
            match r {
                Ok(u) => exists|i: int|
                    0 <= i < self.users().len() && #[trigger] self.users()[i] == u && u.username@
                        == username@ && password_verifies(password@, u.password@),
                Err(e) => {
                    &&& e == UsersServiceError::InvalidUserPassword
                    &&& !(exists|i: int|
                        0 <= i < self.users().len() && (#[trigger] self.users()[i]).username@
                            == username@ && password_verifies(
                            password@,
                            self.users()[i].password@,
                        ))
                },
            },
    {
        match self.store.get_user_by_username(username) {
            Ok(user) => {
                proof {
                    let k = choose|i: int|
                        0 <= i < self.store.users().len() && #[trigger] self.store.users()[i]
                            == user && user.username@ == username@;
                    assert(self.users()[k] == user);
                }
                if verify_password(password, &user.password) {
                    Ok(user)
                } else {
                    proof {
                        let k = choose|k: int|
                            0 <= k < self.users().len() && #[trigger] self.users()[k] == user
                                && user.username@ == username@;
                        assert forall|i: int|
                            0 <= i < self.users().len() && (#[trigger] self.users()[i]).username@
                                == username@ implies !password_verifies(
                            password@,
                            self.users()[i].password@,
                        ) by {
                            self.store.lemma_wf_unique();
                            assert(self.store.users()[i] == self.users()[i]);
                            assert(self.store.users()[k] == self.users()[k]);
                            assert(i == k);
                        }
                    }
                    Err(UsersServiceError::InvalidUserPassword)
                }
            },
            Err(_) => Err(UsersServiceError::InvalidUserPassword),
        }
    }

    /// Look a user up by id; absence surfaces as a users `UserNotFound`.
    pub fn get_user_by_id(&self, user_id: u64) -> (r: Result<UserReturn, UsersServiceError>)
        ensures
            match r {
                Ok(u) => exists|i: int|
                    0 <= i < self.users().len() && #[trigger] self.users()[i] == u && u.id
                        == user_id,
                Err(e) => {
                    &&& e == UsersServiceError::UsersDBError(UsersDBError::UserNotFound)
                    &&& !user_id_present(self.users(), user_id)
                },
            },
    {
        match self.store.get_user_by_id(user_id) {
            Ok(user) => {
                proof {
                    let k = choose|i: int|
                        0 <= i < self.store.users().len() && #[trigger] self.store.users()[i]
                            == user && user.id == user_id;
                    assert(self.users()[k] == user);
                }
                Ok(user)
            },
            Err(err) => Err(UsersServiceError::UsersDBError(err)),
        }
    }

    /// Redeem a verify token: resolve it while live, mark its owner
    /// verified and delete the row, as one unit — afterwards no token
    /// with this value remains, so a second redemption reports
    /// `VerifyTokenNotFound`. An absent or expired token reports
    /// `VerifyTokenNotFound` with nothing written; a live token whose
    /// owner is gone reports `UserNotFound` with nothing written.
    pub fn verify_user(&mut self, token: u128, now: u64) -> (r: Result<(), UsersServiceError>)
        requires
            old(self).wf(),
        ensures
            final(self).wf(),
            r is Err ==> *final(self) == *old(self),
            match r {
                Ok(()) => {
                    &&& !token_value_present(final(self).tokens(), token)
                    &&& spec_redeemed(
                        old(self).users(),
                        old(self).tokens(),
                        final(self).users(),
                        final(self).tokens(),
                        token,
                        now,
                    )
                },
                Err(e) => {
                    &&& (e == UsersServiceError::VerifyTokensDBError(
                        VerifyTokensDBError::VerifyTokenNotFound,
                    ) <==> !live_token_present(old(self).tokens(), token, now))
                    &&& (e == UsersServiceError::UsersDBError(UsersDBError::UserNotFound)
                        ==> exists|ti: int|
                        {
                            &&& 0 <= ti < old(self).tokens().len()
                            &&& (#[trigger] old(self).tokens()[ti]).token == token
                            &&& old(self).tokens()[ti].valid_until > now
                            &&& !user_id_present(old(self).users(), old(self).tokens()[ti].user)
                        })
                    &&& (e == UsersServiceError::VerifyTokensDBError(
                        VerifyTokensDBError::VerifyTokenNotFound,
                    ) || e == UsersServiceError::UsersDBError(UsersDBError::UserNotFound))
                },
            },
    {
        let verify_token = match self.store.get_verify_token_by_value(token, now) {
            Ok(t) => t,
            Err(_) => {
                return Err(
                    UsersServiceError::VerifyTokensDBError(VerifyTokensDBError::VerifyTokenNotFound),
                );
            },
        };
        let ghost ti = choose|i: int|
            0 <= i < self.store.tokens().len() && #[trigger] self.store.tokens()[i] == verify_token
                && verify_token.token == token && verify_token.valid_until > now;
        let owner = match self.store.get_user_by_id(verify_token.user) {
            Ok(u) => u,
            Err(_) => {
                proof {
                    assert(self.store.tokens()[ti] == verify_token);
                    assert(old(self).tokens()[ti].token == token && old(self).tokens()[
                        ti
                    ].valid_until > now && !user_id_present(
                        old(self).users(),
                        old(self).tokens()[ti].user,
                    ));
                }
                return Err(UsersServiceError::UsersDBError(UsersDBError::UserNotFound));
            },
        };
        let ghost ui = choose|i: int|
            0 <= i < self.store.users().len() && #[trigger] self.store.users()[i] == owner
                && owner.id == verify_token.user;
        proof {
            assert(self.store.users()[ui].id == verify_token.user);
            assert(self.store.tokens()[ti].token == token);
            old(self).store.lemma_wf_unique();
        }
        match self.store.set_user_verified(verify_token.user) {
            Ok(()) => {},
            // Unreachable: the owner lookup above found the user.
            Err(_) => {
                proof {
                    assert(false);
                }
                return Err(UsersServiceError::UsersDBError(UsersDBError::UserNotFound));
            },
        }
        proof {
            let si = choose|i: int|
                0 <= i < old(self).store.users().len() && (#[trigger] old(
                    self,
                ).store.users()[i]).id == verify_token.user && self.store.users() == old(
                    self,
                ).store.users().update(
                    i,
                    UserReturn { is_verified: true, ..old(self).store.users()[i] },
                );
            assert(si == ui);
        }
        match self.store.delete_verify_token_by_id(verify_token.id) {
            Ok(()) => {
                proof {
                    let di = choose|i: int|
                        0 <= i < old(self).store.tokens().len() && (#[trigger] old(
                            self,
                        ).store.tokens()[i]).id == verify_token.id && self.store.tokens() == old(
                            self,
                        ).store.tokens().remove(i);
                    assert(di == ti);
                    assert(self.tokens() == old(self).tokens().remove(ti));
                    assert(self.users() == old(self).users().update(
                        ui,
                        UserReturn { is_verified: true, ..old(self).users()[ui] },
                    ));
                    assert(spec_redeemed(
                        old(self).users(),
                        old(self).tokens(),
                        self.users(),
                        self.tokens(),
                        token,
                        now,
                    )) by {
                        assert((old(self).tokens()[ti]).token == token);
                        assert((old(self).users()[ui]).id == old(self).tokens()[ti].user);
                    }
                    lemma_no_value_after_remove(old(self).tokens(), self.tokens(), token);
                }
                Ok(())
            },
            // Unreachable: the row was found live and marking the owner does
            // not touch the token table.
            Err(_) => {
                proof {
                    assert(false);
                }
                Err(
                    UsersServiceError::VerifyTokensDBError(VerifyTokensDBError::VerifyTokenNotFound),
                )
            },
        }
    }

    /// Report whether the user with this id is verified; absence surfaces
    /// as a users `UserNotFound`.
    pub fn get_user_is_verified(&self, user_id: u64) -> (r: Result<bool, UsersServiceError>)
        ensures
            match r {
                Ok(b) => exists|i: int|
                    0 <= i < self.users().len() && (#[trigger] self.users()[i]).id == user_id
                        && self.users()[i].is_verified == b,
                Err(e) => {
                    &&& e == UsersServiceError::UsersDBError(UsersDBError::UserNotFound)
                    &&& !user_id_present(self.users(), user_id)
                },
            },
    {
        match self.store.is_user_verified(user_id) {
            Ok(b) => {
                proof {
                    let k = choose|i: int|
                        0 <= i < self.store.users().len() && (#[trigger] self.store.users()[i]).id
                            == user_id && self.store.users()[i].is_verified == b;
                    assert(self.users()[k].id == user_id);
                }
                Ok(b)
            },
            Err(err) => Err(UsersServiceError::UsersDBError(err)),
        }
    }

    /// One sweep: delete every token with `valid_until <= now`, leave the
    /// rest and every user untouched, and report how many went.
    pub fn sweep_expired_verify_tokens(&mut self, now: u64) -> (r: usize)
        requires
            old(self).wf(),
        ensures
            final(self).wf(),
            final(self).users() == old(self).users(),
            final(self).tokens() == old(self).tokens().filter(crate::store::unexpired_at(now)),
            r == old(self).tokens().len() - final(self).tokens().len(),
    {
        self.store.delete_expired_verify_tokens(now)
    }
}

/// Once the row holding a value is removed, no row holds it: the store
/// keeps token values unique.
proof fn lemma_no_value_after_remove(
    before: Seq<VerifyTokenReturn>,
    after: Seq<VerifyTokenReturn>,
    value: u128,
)
    requires
        forall|i: int, j: int|
            0 <= i < j < before.len() ==> (#[trigger] before[i]).token != (#[trigger] before[j]).token,
        exists|ti: int|
            0 <= ti < before.len() && (#[trigger] before[ti]).token == value && after
                == before.remove(ti),
    ensures
        !token_value_present(after, value),
{
    let ti = choose|ti: int|
        0 <= ti < before.len() && (#[trigger] before[ti]).token == value && after == before.remove(
            ti,
        );
    before.remove_ensures(ti);
    assert forall|k: int| 0 <= k < after.len() implies (#[trigger] after[k]).token != value by {
        if k < ti {
            assert(after[k] == before[k]);
            assert(before[k].token != before[ti].token);
        } else {
            assert(after[k] == before[k + 1]);
            assert(before[ti].token != before[k + 1].token);
        }
    }
}

} // verus!
