//! The account service: a store of user records and the operations on it.
//!
//! Each operation is first stated as a spec function from the store's
//! contents (and its arguments) to the new contents and the result; the
//! executable methods of `UserStore` are proved to compute exactly that.

use vstd::prelude::*;

use crate::errors::{WebError, CONFLICT, NOT_FOUND, UNAUTHORIZED};
use crate::models::{new_account, public_view, CertificateUser, CreateUser, User, UserView};
use crate::token::{is_token, token_generator};

verus! {

/// Seconds for which a freshly issued token stays valid.
pub const TOKEN_LIFETIME: i64 = 3600;

/// The latest login time whose expiry still fits in an `i64`.
pub const LATEST_LOGIN_TIME: i64 = 9223372036854772207;

/// An error as a (status, message) pair.
pub type ErrView = (u16, Seq<char>);

pub open spec fn login_failed() -> ErrView {
    (UNAUTHORIZED, "Username or password error!"@)
}

pub open spec fn not_logged_in() -> ErrView {
    (UNAUTHORIZED, "You need to login first!"@)
}

pub open spec fn token_expired() -> ErrView {
    (UNAUTHORIZED, "Token expired!"@)
}

pub open spec fn token_mismatch() -> ErrView {
    (UNAUTHORIZED, "Token error!"@)
}

pub open spec fn certificate_failed() -> ErrView {
    (UNAUTHORIZED, "Username or token error!"@)
}

pub open spec fn user_not_found() -> ErrView {
    (NOT_FOUND, "User not found!"@)
}

pub open spec fn username_taken() -> ErrView {
    (CONFLICT, "Username already exists!"@)
}

/// No two records share a username.
pub open spec fn unique_names(s: Seq<UserView>) -> bool {
    forall|i: int, j: int|
        0 <= i < s.len() && 0 <= j < s.len() && i != j ==> #[trigger] s[i].username
            != #[trigger] s[j].username
}

pub open spec fn has_name(s: Seq<UserView>, name: Seq<char>, i: int) -> bool {
    0 <= i < s.len() && s[i].username == name
}

/// The position of the record with this username, if any.
pub open spec fn index_of_name(s: Seq<UserView>, name: Seq<char>) -> Option<int> {
    if exists|i: int| has_name(s, name, i) {
        Some(choose|i: int| has_name(s, name, i))
    } else {
        None
    }
}

/// `i` is the first record that holds the token `t`.
pub open spec fn is_first_holder(s: Seq<UserView>, t: Seq<char>, i: int) -> bool {
    &&& 0 <= i < s.len()
    &&& s[i].token == t
    &&& forall|k: int| 0 <= k < i ==> #[trigger] s[k].token != t
}

/// The first record that holds the non-empty token `t`, if any.
pub open spec fn token_holder(s: Seq<UserView>, t: Seq<char>) -> Option<int> {
    if t.len() > 0 && exists|i: int| is_first_holder(s, t, i) {
        Some(choose|i: int| is_first_holder(s, t, i))
    } else {
        None
    }
}

pub open spec fn with_session(u: UserView, token: Seq<char>, expiry: int) -> UserView {
    UserView { token, valid_token_time: expiry, ..u }
}

pub open spec fn without_session(u: UserView) -> UserView {
    UserView { token: Seq::empty(), valid_token_time: 0, ..u }
}

pub open spec fn deprecated(u: UserView) -> UserView {
    UserView { is_deprecated: true, token: Seq::empty(), valid_token_time: 0, ..u }
}

/// The stored record `rec` overwritten by the profile in `info`; identity,
/// session and bookkeeping fields stay those of `rec`.
pub open spec fn apply_update(rec: UserView, info: UserView) -> UserView {
    UserView {
        id: rec.id,
        username: rec.username,
        register_time: rec.register_time,
        token: rec.token,
        valid_token_time: rec.valid_token_time,
        is_deprecated: rec.is_deprecated,
        ..info
    }
}

/// Login: the live record with this username and password gets a session
/// with `token` that expires `TOKEN_LIFETIME` seconds after `now`.
pub open spec fn login_spec(
    s: Seq<UserView>,
    name: Seq<char>,
    password: Seq<char>,
    token: Seq<char>,
    now: int,
) -> (Seq<UserView>, Result<Seq<char>, ErrView>) {
    match index_of_name(s, name) {
        Some(i) => if s[i].password == password && !s[i].is_deprecated {
            (s.update(i, with_session(s[i], token, now + TOKEN_LIFETIME)), Ok(token))
        } else {
            (s, Err(login_failed()))
        },
        None => (s, Err(login_failed())),
    }
}

/// Registration: a new record with a default profile, then a login.
pub open spec fn register_spec(
    s: Seq<UserView>,
    name: Seq<char>,
    password: Seq<char>,
    id: [u8; 12],
    token: Seq<char>,
    now: int,
) -> (Seq<UserView>, Result<Seq<char>, ErrView>) {
    if index_of_name(s, name) is Some {
        (s, Err(username_taken()))
    } else {
        login_spec(s.push(new_account(Some(id), name, password, now)), name, password, token, now)
    }
}

/// Logout: the first record holding the token loses its session.
pub open spec fn logout_spec(s: Seq<UserView>, token: Seq<char>) -> (
    Seq<UserView>,
    Result<(), ErrView>,
) {
    match token_holder(s, token) {
        Some(i) => (s.update(i, without_session(s[i])), Ok(())),
        None => (s, Err(token_expired())),
    }
}

/// Session check by username: the live record, if it holds an unexpired
/// token; an expired token is cleared.
pub open spec fn token_verify_spec(s: Seq<UserView>, name: Seq<char>, now: int) -> (
    Seq<UserView>,
    Result<UserView, ErrView>,
) {
    match index_of_name(s, name) {
        Some(i) => if s[i].is_deprecated || s[i].token.len() == 0 {
            (s, Err(not_logged_in()))
        } else if s[i].valid_token_time < now {
            (s.update(i, UserView { token: Seq::empty(), ..s[i] }), Err(token_expired()))
        } else {
            (s, Ok(s[i]))
        },
        None => (s, Err(not_logged_in())),
    }
}

/// Certificate check: a live session whose token is `token`.
pub open spec fn verify_spec(s: Seq<UserView>, name: Seq<char>, token: Seq<char>, now: int) -> (
    Seq<UserView>,
    Result<(), ErrView>,
) {
    let (s2, r) = token_verify_spec(s, name, now);
    match r {
        Ok(u) => if u.token == token {
            (s2, Ok(()))
        } else {
            (s2, Err(token_mismatch()))
        },
        Err(e) => (s2, Err(e)),
    }
}

/// Profile update: with a live session whose token is the one in `info`,
/// the record takes the profile of `info`; the result is the stored record
/// with its secrets blanked.
pub open spec fn update_spec(s: Seq<UserView>, info: UserView, now: int) -> (
    Seq<UserView>,
    Result<UserView, ErrView>,
) {
    let (s2, r) = token_verify_spec(s, info.username, now);
    match r {
        Ok(u) => if u.token == info.token {
            let i = index_of_name(s, info.username)->0;
            let rec = apply_update(s[i], info);
            (s.update(i, rec), Ok(public_view(rec)))
        } else {
            (s2, Err(token_mismatch()))
        },
        Err(e) => (s2, Err(e)),
    }
}

/// Deletion: the live record with this username and non-empty token is
/// marked deprecated and loses its session.
pub open spec fn delete_spec(s: Seq<UserView>, name: Seq<char>, token: Seq<char>) -> (
    Seq<UserView>,
    Result<(), ErrView>,
) {
    match index_of_name(s, name) {
        Some(i) => if token.len() > 0 && s[i].token == token && !s[i].is_deprecated {
            (s.update(i, deprecated(s[i])), Ok(()))
        } else {
            (s, Err(certificate_failed()))
        },
        None => (s, Err(certificate_failed())),
    }
}

/// Profile lookup: the record with its secrets blanked.
pub open spec fn profile_spec(s: Seq<UserView>, name: Seq<char>) -> Result<UserView, ErrView> {
    match index_of_name(s, name) {
        Some(i) => Ok(public_view(s[i])),
        None => Err(user_not_found()),
    }
}

pub open spec fn token_result(r: Result<String, WebError>) -> Result<Seq<char>, ErrView> {
    match r {
        Ok(t) => Ok(t@),
        Err(e) => Err(e@),
    }
}

pub open spec fn unit_result(r: Result<(), WebError>) -> Result<(), ErrView> {
    match r {
        Ok(_) => Ok(()),
        Err(e) => Err(e@),
    }
}

pub open spec fn user_result(r: Result<User, WebError>) -> Result<UserView, ErrView> {
    match r {
        Ok(u) => Ok(u@),
        Err(e) => Err(e@),
    }
}

/// Within a store of unique names, the record named `name` sits at `i`.
pub proof fn lemma_index_of_name(s: Seq<UserView>, name: Seq<char>, i: int)
    requires
        unique_names(s),
        has_name(s, name, i),
    ensures
        index_of_name(s, name) == Some(i),
{
    let j = choose|j: int| has_name(s, name, j);
    assert(has_name(s, name, j));
}

/// Overwriting a record by one of the same name keeps the names unique.
pub proof fn lemma_update_keeps_unique(s: Seq<UserView>, i: int, u: UserView)
    requires
        unique_names(s),
        0 <= i < s.len(),
        u.username == s[i].username,
    ensures
        unique_names(s.update(i, u)),
{
    let t = s.update(i, u);
    assert forall|a: int, b: int| 0 <= a < t.len() && 0 <= b < t.len() && a != b implies #[trigger] t[a].username
        != #[trigger] t[b].username by {
        assert(t[a].username == s[a].username);
        assert(t[b].username == s[b].username);
    }
}

/// A record that holds `t` implies a first record that holds it.
pub proof fn lemma_first_holder_exists(s: Seq<UserView>, t: Seq<char>, i: int)
    requires
        0 <= i < s.len(),
        s[i].token == t,
    ensures
        exists|j: int| is_first_holder(s, t, j),
    decreases i,
{
    if exists|k: int| 0 <= k < i && s[k].token == t {
        let k = choose|k: int| 0 <= k < i && s[k].token == t;
        lemma_first_holder_exists(s, t, k);
    } else {
        assert(is_first_holder(s, t, i));
    }
}

/// The first holder of a token is the one `token_holder` names.
pub proof fn lemma_token_holder(s: Seq<UserView>, t: Seq<char>, i: int)
    requires
        t.len() > 0,
        is_first_holder(s, t, i),
    ensures
        token_holder(s, t) == Some(i),
{
    let j = choose|j: int| is_first_holder(s, t, j);
    assert(is_first_holder(s, t, j));
    if j < i {
        assert(s[j].token != t);
    } else if i < j {
        assert(s[i].token != t);
    }
}

fn text(s: &str) -> (r: String)
    ensures
        r@ == s@,
{
    String::from_str(s)
}

fn error(code: u16, message: &str) -> (r: WebError)
    ensures
        r@ == (code, message@),
{
    WebError::new(code, text(message))
}

/// The account records; no two share a username.
pub struct UserStore {
    users: Vec<User>,
}

impl View for UserStore {
    type V = Seq<UserView>;

    closed spec fn view(&self) -> Seq<UserView> {
        self.users@.map_values(|u: User| u@)
    }
}

impl UserStore {
    /// Well-formed: no two records share a username.
    pub open spec fn wf(&self) -> bool {
        unique_names(self@)
    }

    pub fn new() -> (r: UserStore)
        ensures
            r.wf(),
            r@ == Seq::<UserView>::empty(),
    {
        let r = UserStore { users: Vec::new() };
        assert(r@ =~= Seq::<UserView>::empty());
        r
    }

    pub fn len(&self) -> (r: usize)
        ensures
            r == self@.len(),
    {
        self.users.len()
    }

    fn find_name(&self, name: &String) -> (r: Option<usize>)
        requires
            self.wf(),
        ensures
            match r {
                Some(i) => i < self@.len() && index_of_name(self@, name@) == Some(i as int),
                None => index_of_name(self@, name@) is None,
            },
    {
        let mut i: usize = 0;
        while i < self.users.len()
            invariant
                i <= self.users.len(),
                self.wf(),
                self@.len() == self.users.len(),
                forall|k: int| 0 <= k < i ==> !has_name(self@, name@, k),
            decreases self.users.len() - i,
        {
            if self.users[i].username == *name {
                proof {
                    lemma_index_of_name(self@, name@, i as int);
                }
                return Some(i);
            }
            i = i + 1;
        }
        None
    }

    fn find_token(&self, token: &String) -> (r: Option<usize>)
        ensures
            match r {
                Some(i) => i < self@.len() && token_holder(self@, token@) == Some(i as int),
                None => token_holder(self@, token@) is None,
            },
    {
        if token.as_str().is_empty() {
            return None;
        }
        let mut i: usize = 0;
        while i < self.users.len()
            invariant
                i <= self.users.len(),
                self@.len() == self.users.len(),
                token@.len() > 0,
                forall|k: int| 0 <= k < i ==> #[trigger] self@[k].token != token@,
            decreases self.users.len() - i,
        {
            if self.users[i].token == *token {
                proof {
                    lemma_token_holder(self@, token@, i as int);
                }
                return Some(i);
            }
            i = i + 1;
        }
        proof {
            if exists|j: int| is_first_holder(self@, token@, j) {
                let j = choose|j: int| is_first_holder(self@, token@, j);
                assert(self@[j].token == token@);
            }
        }
        None
    }

    /// Replaces the record at `i` by one of the same name.
    fn put(&mut self, i: usize, u: User)
        requires
            old(self).wf(),
            i < old(self)@.len(),
            u@.username == old(self)@[i as int].username,
        ensures
            final(self).wf(),
            final(self)@ == old(self)@.update(i as int, u@),
    {
        proof {
            lemma_update_keeps_unique(self@, i as int, u@);
        }
        let ghost target = self@.update(i as int, u@);
        self.users.set(i, u);
        assert(self@ =~= target);
    }
    /// Appends a record whose name is not taken yet.
    fn add(&mut self, u: User)
        requires
            old(self).wf(),
            index_of_name(old(self)@, u@.username) is None,
        ensures
            final(self).wf(),
            final(self)@ == old(self)@.push(u@),
    {
        let ghost target = self@.push(u@);
        self.users.push(u);
        assert(self@ =~= target);
        assert forall|i: int, j: int|
            0 <= i < self@.len() && 0 <= j < self@.len() && i != j implies #[trigger] self@[i].username
            != #[trigger] self@[j].username by {
            if i < old(self)@.len() && j < old(self)@.len() {
            } else if i < old(self)@.len() {
                assert(!has_name(old(self)@, u@.username, i));
            } else {
                assert(!has_name(old(self)@, u@.username, j));
            }
        }
    }

    /// Starts a session with `token` for the live account that matches the
    /// username and password of `user_info`.
    pub fn login(&mut self, user_info: &CreateUser, token: String, now: i64) -> (r: Result<
        String,
        WebError,
    >)
        requires
            old(self).wf(),
            now <= LATEST_LOGIN_TIME,
        ensures
            final(self).wf(),
            (final(self)@, token_result(r)) == login_spec(
                old(self)@,
                user_info.username@,
                user_info.password@,
                token@,
                now as int,
            ),
    {
        match self.find_name(&user_info.username) {
            Some(i) => {
                if self.users[i].password == user_info.password && !self.users[i].is_deprecated {
                    let mut rec = self.users[i].copy_record();
                    rec.token = token.clone();
                    rec.valid_token_time = now + TOKEN_LIFETIME;
                    self.put(i, rec);
                    Ok(token)
                } else {
                    Err(error(UNAUTHORIZED, "Username or password error!"))
                }
            },
            None => Err(error(UNAUTHORIZED, "Username or password error!")),
        }
    }

    /// Creates the account of `user_info` (record id `id`, registered at
    /// `now`), then logs it in with `token`.
    pub fn register(&mut self, user_info: CreateUser, id: [u8; 12], token: String, now: i64) -> (r:
        Result<String, WebError>)
        requires
            old(self).wf(),
            now <= LATEST_LOGIN_TIME,
        ensures
            final(self).wf(),
            (final(self)@, token_result(r)) == register_spec(
                old(self)@,
                user_info.username@,
                user_info.password@,
                id,
                token@,
                now as int,
            ),
    {
        if self.find_name(&user_info.username).is_some() {
            return Err(error(CONFLICT, "Username already exists!"));
        }
        let credentials = CreateUser {
            username: user_info.username.clone(),
            password: user_info.password.clone(),
            phone: None,
            email: None,
        };
        let rec = User::new_account(user_info, Some(id), now);
        self.add(rec);
        self.login(&credentials, token, now)
    }

    /// Ends the session of the first account that holds `token`.
    pub fn logout(&mut self, token: &String) -> (r: Result<(), WebError>)
        requires
            old(self).wf(),
        ensures
            final(self).wf(),
            (final(self)@, unit_result(r)) == logout_spec(old(self)@, token@),
    {
        match self.find_token(token) {
            Some(i) => {
                let mut rec = self.users[i].copy_record();
                rec.token = String::new();
                rec.valid_token_time = 0;
                self.put(i, rec);
                Ok(())
            },
            None => Err(error(UNAUTHORIZED, "Token expired!")),
        }
    }

    /// The position of the account named `username` if it has a live
    /// session at `now`; an expired token is cleared.
    fn check_session(&mut self, username: &String, now: i64) -> (r: Result<usize, WebError>)
        requires
            old(self).wf(),
        ensures
            final(self).wf(),
            match r {
                Ok(i) => {
                    &&& i < old(self)@.len()
                    &&& index_of_name(old(self)@, username@) == Some(i as int)
                    &&& final(self)@ == old(self)@
                    &&& token_verify_spec(old(self)@, username@, now as int) == (
                        old(self)@,
                        Ok::<UserView, ErrView>(old(self)@[i as int]),
                    )
                },
                Err(e) => token_verify_spec(old(self)@, username@, now as int) == (
                    final(self)@,
                    Err::<UserView, ErrView>(e@),
                ),
            },
    {
        match self.find_name(username) {
            Some(i) => {
                if self.users[i].is_deprecated || self.users[i].token.as_str().is_empty() {
                    Err(error(UNAUTHORIZED, "You need to login first!"))
                } else if self.users[i].valid_token_time < now {
                    let mut rec = self.users[i].copy_record();
                    rec.token = String::new();
                    self.put(i, rec);
                    Err(error(UNAUTHORIZED, "Token expired!"))
                } else {
                    Ok(i)
                }
            },
            None => Err(error(UNAUTHORIZED, "You need to login first!")),
        }
    }

    /// The record of `username` if it has a live session at `now`.
    pub fn token_verify(&mut self, username: &String, now: i64) -> (r: Result<User, WebError>)
        requires
            old(self).wf(),
        ensures
            final(self).wf(),
            (final(self)@, user_result(r)) == token_verify_spec(old(self)@, username@, now as int),
    {
        match self.check_session(username, now) {
            Ok(i) => Ok(self.users[i].copy_record()),
            Err(e) => Err(e),
        }
    }

    /// Succeeds when `certificate` names a live session at `now`.
    pub fn verify(&mut self, certificate: &CertificateUser, now: i64) -> (r: Result<(), WebError>)
        requires
            old(self).wf(),
        ensures
            final(self).wf(),
            (final(self)@, unit_result(r)) == verify_spec(
                old(self)@,
                certificate.username@,
                certificate.token@,
                now as int,
            ),
    {
        match self.check_session(&certificate.username, now) {
            Ok(i) => {
                if self.users[i].token == certificate.token {
                    Ok(())
                } else {
                    Err(error(UNAUTHORIZED, "Token error!"))
                }
            },
            Err(e) => Err(e),
        }
    }

    /// Overwrites the profile of the account named in `user_info`, whose
    /// token must be that of the account's live session at `now`.
    pub fn update(&mut self, user_info: User, now: i64) -> (r: Result<User, WebError>)
        requires
            old(self).wf(),
        ensures
            final(self).wf(),
            (final(self)@, user_result(r)) == update_spec(old(self)@, user_info@, now as int),
    {
        match self.check_session(&user_info.username, now) {
            Ok(i) => {
                if !(self.users[i].token == user_info.token) {
                    return Err(error(UNAUTHORIZED, "Token error!"));
                }
                let live = &self.users[i];
                let rec = User {
                    _id: live._id,
                    username: live.username.clone(),
                    password: user_info.password,
                    gender: user_info.gender,
                    education: user_info.education,
                    description: user_info.description,
                    avatar: user_info.avatar,
                    school: user_info.school,
                    major: user_info.major,
                    phone: user_info.phone,
                    email: user_info.email,
                    following: user_info.following,
                    participated: user_info.participated,
                    published: user_info.published,
                    collection: user_info.collection,
                    register_time: live.register_time,
                    token: live.token.clone(),
                    valid_token_time: live.valid_token_time,
                    is_deprecated: live.is_deprecated,
                };
                let mut shown = rec.copy_record();
                self.put(i, rec);
                shown.strip_secrets();
                Ok(shown)
            },
            Err(e) => Err(e),
        }
    }

    /// Marks deprecated the live account that `certification` names by its
    /// username and current token.
    pub fn delete(&mut self, certification: &CertificateUser) -> (r: Result<(), WebError>)
        requires
            old(self).wf(),
        ensures
            final(self).wf(),
            (final(self)@, unit_result(r)) == delete_spec(
                old(self)@,
                certification.username@,
                certification.token@,
            ),
    {
        match self.find_name(&certification.username) {
            Some(i) => {
                if !certification.token.as_str().is_empty() && self.users[i].token
                    == certification.token && !self.users[i].is_deprecated {
                    let mut rec = self.users[i].copy_record();
                    rec.is_deprecated = true;
                    rec.token = String::new();
                    rec.valid_token_time = 0;
                    self.put(i, rec);
                    Ok(())
                } else {
                    Err(error(UNAUTHORIZED, "Username or token error!"))
                }
            },
            None => Err(error(UNAUTHORIZED, "Username or token error!")),
        }
    }

    /// The record of `username`, password and token blanked.
    pub fn profile(&self, username: &String) -> (r: Result<User, WebError>)
        requires
            self.wf(),
        ensures
            user_result(r) == profile_spec(self@, username@),
    {
        match self.find_name(username) {
            Some(i) => {
                let mut shown = self.users[i].copy_record();
                shown.strip_secrets();
                Ok(shown)
            },
            None => Err(error(NOT_FOUND, "User not found!")),
        }
    }
}


/// Relies on chrono::Utc::now and DateTime::timestamp: the current time in
/// whole seconds since the Unix epoch. `Utc::now` fails on a system clock
/// before the epoch and builds its value with `DateTime::from_timestamp`,
/// whose range ends with the year 262142, so the result is never negative
/// and lies far below `LATEST_LOGIN_TIME`.
#[verifier::external_body]
fn current_timestamp() -> (r: i64)
    ensures
        0 <= r <= LATEST_LOGIN_TIME,
{
    chrono::Utc::now().timestamp()
}

/// Relies on bson::oid::ObjectId::new and ObjectId::bytes: a fresh object
/// id, as its twelve bytes. Nothing is promised of its value.
#[verifier::external_body]
fn new_object_id() -> (r: [u8; 12]) {
    bson::oid::ObjectId::new().bytes()
}

/// Registers `user_info` with a fresh record id, at the time now, and logs
/// it in with a freshly generated token. A name not taken yet is always
/// registered; a taken one changes nothing.
pub fn serv_user_register(store: &mut UserStore, user_info: CreateUser) -> (r: Result<
    String,
    WebError,
>)
    requires
        old(store).wf(),
    ensures
        final(store).wf(),
        exists|id: [u8; 12], token: Seq<char>, now: int|
            is_token(token) && 0 <= now <= LATEST_LOGIN_TIME && (final(store)@, token_result(r))
                == register_spec(
                old(store)@,
                user_info.username@,
                user_info.password@,
                id,
                token,
                now,
            ),
        index_of_name(old(store)@, user_info.username@) is Some ==> final(store)@ == old(store)@
            && token_result(r) == Err::<Seq<char>, ErrView>(username_taken()),
        index_of_name(old(store)@, user_info.username@) is None ==> {
            &&& r is Ok
            &&& is_token(token_result(r)->Ok_0)
            &&& final(store)@ == old(store)@.push(final(store)@.last())
            &&& final(store)@.last().username == user_info.username@
            &&& final(store)@.last().password == user_info.password@
            &&& final(store)@.last().token == token_result(r)->Ok_0
            &&& !final(store)@.last().is_deprecated
        },
{
    let now = current_timestamp();
    let id = new_object_id();
    let token = token_generator();
    let ghost name = user_info.username@;
    let ghost password = user_info.password@;
    let ghost t = token@;
    let ghost before = store@;
    let r = store.register(user_info, id, token, now);
    proof {
        if index_of_name(before, name) is None {
            let p = before.push(new_account(Some(id), name, password, now as int));
            let n = before.len() as int;
            assert(has_name(p, name, n));
            crate::laws::lemma_register_grants_session(
                before,
                name,
                password,
                id,
                t,
                now as int,
                now as int,
                UserView { username: name, token: t, ..p[n] },
            );
            assert(unique_names(p)) by {
                assert forall|i: int, j: int|
                    0 <= i < p.len() && 0 <= j < p.len() && i != j implies #[trigger] p[i].username
                    != #[trigger] p[j].username by {
                    if i < n && j < n {
                        assert(p[i] == before[i] && p[j] == before[j]);
                    } else if i < n {
                        assert(!has_name(before, name, i));
                    } else {
                        assert(!has_name(before, name, j));
                    }
                }
            }
            crate::laws::lemma_login_starts_session(p, name, password, t, now as int, n);
            assert(store@ =~= before.push(store@.last()));
        }
    }
    r
}

/// Logs `user_info` in with a freshly generated token, at the time now. A
/// live account with that username and password always gets the session;
/// otherwise nothing changes and the one login error comes back.
pub fn serv_user_login(store: &mut UserStore, user_info: CreateUser) -> (r: Result<
    String,
    WebError,
>)
    requires
        old(store).wf(),
    ensures
        final(store).wf(),
        exists|token: Seq<char>, now: int|
            is_token(token) && 0 <= now <= LATEST_LOGIN_TIME && (final(store)@, token_result(r))
                == login_spec(old(store)@, user_info.username@, user_info.password@, token, now),
        forall|i: int|
            has_name(old(store)@, user_info.username@, i) && old(store)@[i].password
                == user_info.password@ && !old(store)@[i].is_deprecated ==> {
                &&& r is Ok
                &&& is_token(token_result(r)->Ok_0)
                &&& final(store)@ == old(store)@.update(i, final(store)@[i])
                &&& final(store)@[i].token == token_result(r)->Ok_0
                &&& final(store)@[i].valid_token_time > 0
            },
        (forall|i: int|
            has_name(old(store)@, user_info.username@, i) ==> old(store)@[i].password
                != user_info.password@ || old(store)@[i].is_deprecated) ==> final(store)@ == old(
            store,
        )@ && token_result(r) == Err::<Seq<char>, ErrView>(login_failed()),
{
    let now = current_timestamp();
    let token = token_generator();
    let ghost name = user_info.username@;
    let ghost password = user_info.password@;
    let ghost t = token@;
    let ghost before = store@;
    let r = store.login(&user_info, token, now);
    proof {
        assert forall|i: int|
            has_name(before, name, i) && before[i].password == password
                && !before[i].is_deprecated implies {
            &&& r is Ok
            &&& is_token(token_result(r)->Ok_0)
            &&& store@ == before.update(i, store@[i])
            &&& store@[i].token == token_result(r)->Ok_0
            &&& store@[i].valid_token_time > 0
        } by {
            crate::laws::lemma_login_starts_session(before, name, password, t, now as int, i);
            assert(store@ =~= before.update(i, store@[i]));
        }
        if forall|i: int|
            has_name(before, name, i) ==> before[i].password != password
                || before[i].is_deprecated {
            crate::laws::lemma_login_rejects(before, name, password, t, now as int);
        }
    }
    r
}

/// Ends the session that holds `token`.
pub fn serv_user_logout(store: &mut UserStore, token: String) -> (r: Result<(), WebError>)
    requires
        old(store).wf(),
    ensures
        final(store).wf(),
        (final(store)@, unit_result(r)) == logout_spec(old(store)@, token@),
{
    store.logout(&token)
}

/// The live record of `username`, checked at the time now.
pub fn serv_user_token_verify(store: &mut UserStore, username: String) -> (r: Result<
    User,
    WebError,
>)
    requires
        old(store).wf(),
    ensures
        final(store).wf(),
        exists|now: int|
            (final(store)@, user_result(r)) == token_verify_spec(old(store)@, username@, now),
{
    let now = current_timestamp();
    store.token_verify(&username, now)
}

/// The profile of `username`, password and token blanked.
pub fn serv_user_profile(store: &UserStore, username: String) -> (r: Result<User, WebError>)
    requires
        store.wf(),
    ensures
        user_result(r) == profile_spec(store@, username@),
{
    store.profile(&username)
}

/// Overwrites a profile, checking the session at the time now.
pub fn serv_user_update(store: &mut UserStore, user_info: User) -> (r: Result<User, WebError>)
    requires
        old(store).wf(),
    ensures
        final(store).wf(),
        exists|now: int| (final(store)@, user_result(r)) == update_spec(old(store)@, user_info@, now),
{
    let now = current_timestamp();
    store.update(user_info, now)
}

/// Marks deprecated the account that `certification` names.
pub fn serv_user_delete(store: &mut UserStore, certification: CertificateUser) -> (r: Result<
    (),
    WebError,
>)
    requires
        old(store).wf(),
    ensures
        final(store).wf(),
        (final(store)@, unit_result(r)) == delete_spec(
            old(store)@,
            certification.username@,
            certification.token@,
        ),
{
    store.delete(&certification)
}

/// Checks `certificate` against the live session at the time now.
pub fn serv_user_verify(store: &mut UserStore, certificate: CertificateUser) -> (r: Result<
    (),
    WebError,
>)
    requires
        old(store).wf(),
    ensures
        final(store).wf(),
        exists|now: int|
            (final(store)@, unit_result(r)) == verify_spec(
                old(store)@,
                certificate.username@,
                certificate.token@,
                now,
            ),
{
    let now = current_timestamp();
    store.verify(&certificate, now)
}

} // verus!
