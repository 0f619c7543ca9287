//! Library-wide guarantees of the verification-token lifecycle, stated as
//! standalone proofs over the store's views.
//!
//! Each follows from the store's uniqueness invariant and the contracts of
//! `UsersService::verify_user` and `sweep_expired_verify_tokens`.

use vstd::prelude::*;

use crate::store::lemma_filter_elem_of;
use crate::store::live_token_present;
use crate::store::token_value_present;
use crate::store::unexpired_at;
use crate::store::UserReturn;
use crate::store::VerifyTokenReturn;

verus! {

/// A verify token is redeemable at most once. A successful redemption
/// leaves no row with the value (`UsersService::verify_user` ensures it),
/// and where no row holds the value, the value is not live at any instant
/// — so a second redemption reports `VerifyTokenNotFound`, by that
/// function's error clause.
pub proof fn lemma_redeem_at_most_once(
    tokens: Seq<VerifyTokenReturn>,
    value: u128,
    later: u64,
)
    requires
        !token_value_present(tokens, value),
    ensures
        !live_token_present(tokens, value, later),
{
}

/// A token with `expiry <= now` is never redeemable, swept or not: where
/// every row holding the value has expired, the value is not live, and
/// redemption reports `VerifyTokenNotFound`.
pub proof fn lemma_expired_never_live(tokens: Seq<VerifyTokenReturn>, value: u128, now: u64)
    requires
        forall|i: int|
            0 <= i < tokens.len() && (#[trigger] tokens[i]).token == value ==> tokens[i].valid_until
                <= now,
    ensures
        !live_token_present(tokens, value, now),
{
}

/// Sweeping removes exactly the expired rows: what survives a sweep is
/// unexpired and was stored before, and every unexpired stored row
/// survives, in its old order.
pub proof fn lemma_sweep_removes_exactly_expired(tokens: Seq<VerifyTokenReturn>, now: u64)
    ensures
        forall|i: int|
            0 <= i < tokens.filter(unexpired_at(now)).len() ==> (#[trigger] tokens.filter(
                unexpired_at(now),
            )[i]).valid_until > now,
        forall|i: int|
            0 <= i < tokens.filter(unexpired_at(now)).len() ==> tokens.contains(
                #[trigger] tokens.filter(unexpired_at(now))[i],
            ),
        forall|i: int|
            0 <= i < tokens.len() && (#[trigger] tokens[i]).valid_until > now ==> tokens.filter(
                unexpired_at(now),
            ).contains(tokens[i]),
{
    broadcast use vstd::seq_lib::group_filter_ensures;

    let pred = unexpired_at(now);
    lemma_filter_elem_of(tokens, pred);
    assert forall|i: int| 0 <= i < tokens.filter(pred).len() implies tokens.contains(
        #[trigger] tokens.filter(pred)[i],
    ) by {
        let j = choose|j: int| 0 <= j < tokens.len() && tokens.filter(pred)[i] == tokens[j];
        assert(tokens[j] == tokens.filter(pred)[i]);
    }
    assert forall|i: int|
        0 <= i < tokens.len() && (#[trigger] tokens[i]).valid_until > now implies tokens.filter(
        pred,
    ).contains(tokens[i]) by {
        assert(pred(tokens[i]));
    }
}

/// With user ids unique (the store's invariant), a resolved subject has
/// one verified flag: the request authenticator's forbidden and authorized
/// outcomes exclude each other, so the decision for a resolved subject is
/// exactly the flag of its one user.
pub proof fn lemma_auth_outcome_determined(users: Seq<UserReturn>, uid: u64)
    requires
        forall|i: int, j: int|
            0 <= i < j < users.len() ==> (#[trigger] users[i]).id != (#[trigger] users[j]).id,
    ensures
        !((exists|i: int|
            0 <= i < users.len() && (#[trigger] users[i]).id == uid && users[i].is_verified) && (
        exists|i: int|
            0 <= i < users.len() && (#[trigger] users[i]).id == uid && !users[i].is_verified)),
{
    if (exists|i: int|
        0 <= i < users.len() && (#[trigger] users[i]).id == uid && users[i].is_verified) && (
    exists|i: int|
        0 <= i < users.len() && (#[trigger] users[i]).id == uid && !users[i].is_verified) {
        let a = choose|i: int|
            0 <= i < users.len() && (#[trigger] users[i]).id == uid && users[i].is_verified;
        let b = choose|i: int|
            0 <= i < users.len() && (#[trigger] users[i]).id == uid && !users[i].is_verified;
        assert(a == b);
    }
}

} // verus!
