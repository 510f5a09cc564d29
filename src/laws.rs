//! Facts about sequences of account operations, proved over the spec
//! functions that the operations are verified against.

use vstd::prelude::*;

use crate::errors::UNAUTHORIZED;
use crate::models::{new_account, UserView};
use crate::services::{
    delete_spec, has_name, index_of_name, is_first_holder, lemma_first_holder_exists,
    lemma_index_of_name, lemma_update_keeps_unique, login_failed, login_spec, logout_spec,
    not_logged_in, register_spec, token_expired, token_holder, token_verify_spec, unique_names,
    update_spec, verify_spec, ErrView, TOKEN_LIFETIME,
};

verus! {

/// A username that is not taken can be registered, and the token that
/// registration returns at once authenticates the new account: until it
/// expires it passes the certificate check, lets the account update its
/// profile, and logs the account out.
pub proof fn lemma_register_grants_session(
    s: Seq<UserView>,
    name: Seq<char>,
    password: Seq<char>,
    id: [u8; 12],
    token: Seq<char>,
    now: int,
    later: int,
    info: UserView,
)
    requires
        unique_names(s),
        index_of_name(s, name) is None,
        token.len() > 0,
        now <= later <= now + TOKEN_LIFETIME,
        info.username == name,
        info.token == token,
    ensures
        register_spec(s, name, password, id, token, now).1 == Ok::<Seq<char>, ErrView>(token),
        unique_names(register_spec(s, name, password, id, token, now).0),
        verify_spec(register_spec(s, name, password, id, token, now).0, name, token, later).1
            == Ok::<(), ErrView>(()),
        update_spec(register_spec(s, name, password, id, token, now).0, info, later).1 is Ok,
        logout_spec(register_spec(s, name, password, id, token, now).0, token).1 == Ok::<
            (),
            ErrView,
        >(()),
{
    let n = s.len() as int;
    let p = s.push(new_account(Some(id), name, password, now));
    assert forall|i: int, j: int|
        0 <= i < p.len() && 0 <= j < p.len() && i != j implies #[trigger] p[i].username
        != #[trigger] p[j].username by {
        if i < n && j < n {
            assert(p[i] == s[i] && p[j] == s[j]);
        } else if i < n {
            assert(!has_name(s, name, i));
        } else {
            assert(!has_name(s, name, j));
        }
    }
    assert(has_name(p, name, n));
    lemma_index_of_name(p, name, n);
    let s1 = register_spec(s, name, password, id, token, now).0;
    assert(s1 == p.update(n, UserView { token, valid_token_time: now + TOKEN_LIFETIME, ..p[n] }));
    lemma_update_keeps_unique(
        p,
        n,
        UserView { token, valid_token_time: now + TOKEN_LIFETIME, ..p[n] },
    );
    assert(has_name(s1, name, n));
    lemma_index_of_name(s1, name, n);
    lemma_first_holder_exists(s1, token, n);
    assert(token_holder(s1, token) is Some);
}

/// Logging in with the password of a live account succeeds, returns the
/// token handed to it, and gives the account a session whose expiry lies
/// strictly after the login time.
pub proof fn lemma_login_starts_session(
    s: Seq<UserView>,
    name: Seq<char>,
    password: Seq<char>,
    token: Seq<char>,
    now: int,
    i: int,
)
    requires
        unique_names(s),
        has_name(s, name, i),
        s[i].password == password,
        !s[i].is_deprecated,
    ensures
        login_spec(s, name, password, token, now).1 == Ok::<Seq<char>, ErrView>(token),
        login_spec(s, name, password, token, now).0[i].token == token,
        login_spec(s, name, password, token, now).0[i].valid_token_time > now,
        unique_names(login_spec(s, name, password, token, now).0),
{
    lemma_index_of_name(s, name, i);
    lemma_update_keeps_unique(
        s,
        i,
        UserView { token, valid_token_time: now + TOKEN_LIFETIME, ..s[i] },
    );
}

/// A login with a wrong password, on a deprecated account, or on a username
/// that no account has, changes nothing and fails with one and the same
/// error.
pub proof fn lemma_login_rejects(
    s: Seq<UserView>,
    name: Seq<char>,
    password: Seq<char>,
    token: Seq<char>,
    now: int,
)
    requires
        unique_names(s),
        forall|i: int| has_name(s, name, i) ==> s[i].password != password || s[i].is_deprecated,
    ensures
        login_spec(s, name, password, token, now) == (s, Err::<Seq<char>, ErrView>(login_failed())),
{
    if exists|i: int| has_name(s, name, i) {
        let i = choose|i: int| has_name(s, name, i);
        lemma_index_of_name(s, name, i);
    }
}

/// Logging out twice with a token that at most one account holds: the
/// second call changes nothing and fails.
pub proof fn lemma_logout_twice(s: Seq<UserView>, token: Seq<char>)
    requires
        forall|i: int, j: int|
            0 <= i < s.len() && 0 <= j < s.len() && s[i].token == token && s[j].token == token
                ==> i == j,
    ensures
        logout_spec(logout_spec(s, token).0, token) == (
            logout_spec(s, token).0,
            Err::<(), ErrView>(token_expired()),
        ),
{
    let s1 = logout_spec(s, token).0;
    if token.len() > 0 {
        assert forall|j: int| 0 <= j < s1.len() implies s1[j].token != token by {
            if let Some(i) = token_holder(s, token) {
                assert(is_first_holder(s, token, i));
                if j != i {
                    assert(s1[j] == s[j]);
                }
            } else if s[j].token == token {
                lemma_first_holder_exists(s, token, j);
            }
        }
        if exists|i: int| is_first_holder(s1, token, i) {
            let i = choose|i: int| is_first_holder(s1, token, i);
            assert(s1[i].token != token);
        }
    }
}

/// An update whose token is not the live token of the named account fails
/// as unauthorized, and changes no more than the session check does.
pub proof fn lemma_update_rejects_wrong_token(s: Seq<UserView>, info: UserView, now: int, i: int)
    requires
        unique_names(s),
        has_name(s, info.username, i),
        s[i].token != info.token,
    ensures
        update_spec(s, info, now).1 is Err,
        (update_spec(s, info, now).1)->Err_0.0 == UNAUTHORIZED,
        update_spec(s, info, now).0 == token_verify_spec(s, info.username, now).0,
{
    lemma_index_of_name(s, info.username, i);
}

/// Once an account is deleted it is deprecated, and login, the certificate
/// check and profile updates on it all fail as unauthorized.
pub proof fn lemma_delete_locks_out(
    s: Seq<UserView>,
    name: Seq<char>,
    token: Seq<char>,
    password: Seq<char>,
    new_token: Seq<char>,
    presented: Seq<char>,
    info: UserView,
    now: int,
)
    requires
        unique_names(s),
        delete_spec(s, name, token).1 is Ok,
        info.username == name,
    ensures
        unique_names(delete_spec(s, name, token).0),
        index_of_name(delete_spec(s, name, token).0, name) is Some,
        delete_spec(s, name, token).0[index_of_name(delete_spec(s, name, token).0, name)->0].is_deprecated,
        login_spec(delete_spec(s, name, token).0, name, password, new_token, now).1 == Err::<
            Seq<char>,
            ErrView,
        >(login_failed()),
        verify_spec(delete_spec(s, name, token).0, name, presented, now).1 == Err::<(), ErrView>(
            not_logged_in(),
        ),
        update_spec(delete_spec(s, name, token).0, info, now).1 == Err::<UserView, ErrView>(
            not_logged_in(),
        ),
{
    let i = index_of_name(s, name)->0;
    let j = choose|j: int| has_name(s, name, j);
    assert(has_name(s, name, j));
    lemma_index_of_name(s, name, j);
    let s1 = delete_spec(s, name, token).0;
    lemma_update_keeps_unique(
        s,
        i,
        UserView { is_deprecated: true, token: Seq::empty(), valid_token_time: 0, ..s[i] },
    );
    assert(has_name(s1, name, i));
    lemma_index_of_name(s1, name, i);
    lemma_login_rejects(s1, name, password, new_token, now);
}

} // verus!
