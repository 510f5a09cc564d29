//! Account records and the payloads that create or certify them.

use vstd::prelude::*;

verus! {

#[derive(Debug, Clone, Copy, PartialEq, Eq, Structural)]
pub enum Gender {
    Male,
    Female,
    Other,
}

pub open spec fn gender_name(g: Gender) -> Seq<char> {
    match g {
        Gender::Male => "Male"@,
        Gender::Female => "Female"@,
        Gender::Other => "Other"@,
    }
}

impl Gender {
    /// The name under which the value is stored and shown.
    pub fn to_string(&self) -> (r: String)
        ensures
            r@ == gender_name(*self),
    {
        match self {
            Gender::Male => String::from_str("Male"),
            Gender::Female => String::from_str("Female"),
            Gender::Other => String::from_str("Other"),
        }
    }
}

#[derive(Debug, Clone, Copy, PartialEq, Eq, Structural)]
pub enum Education {
    Bachelor,
    Master,
    Doctor,
    Other,
}

pub open spec fn education_name(e: Education) -> Seq<char> {
    match e {
        Education::Bachelor => "Bachelor"@,
        Education::Master => "Master"@,
        Education::Doctor => "Doctor"@,
        Education::Other => "Other"@,
    }
}

impl Education {
    /// The name under which the value is stored and shown.
    pub fn to_string(&self) -> (r: String)
        ensures
            r@ == education_name(*self),
    {
        match self {
            Education::Bachelor => String::from_str("Bachelor"),
            Education::Master => String::from_str("Master"),
            Education::Doctor => String::from_str("Doctor"),
            Education::Other => String::from_str("Other"),
        }
    }
}

/// One account record.
#[derive(Debug, Clone)]
pub struct User {
    pub _id: Option<[u8; 12]>,
    pub username: String,
    pub password: String,
    pub gender: Gender,
    pub education: Education,
    pub description: String,
    pub avatar: String,
    pub school: String,
    pub major: String,
    pub phone: String,
    pub email: String,
    pub following: Vec<String>,
    pub participated: Vec<String>,
    pub published: Vec<String>,
    pub collection: Vec<String>,
    /// Seconds since the epoch at which the account was created.
    pub register_time: i64,
    /// The live session token; empty while logged out.
    pub token: String,
    /// Seconds since the epoch after which the token is no longer accepted.
    pub valid_token_time: i64,
    /// Set once the account is deleted; such an account never authenticates again.
    pub is_deprecated: bool,
}

/// The mathematical value of a `User`.
pub struct UserView {
    pub id: Option<[u8; 12]>,
    pub username: Seq<char>,
    pub password: Seq<char>,
    pub gender: Gender,
    pub education: Education,
    pub description: Seq<char>,
    pub avatar: Seq<char>,
    pub school: Seq<char>,
    pub major: Seq<char>,
    pub phone: Seq<char>,
    pub email: Seq<char>,
    pub following: Seq<Seq<char>>,
    pub participated: Seq<Seq<char>>,
    pub published: Seq<Seq<char>>,
    pub collection: Seq<Seq<char>>,
    pub register_time: int,
    pub token: Seq<char>,
    pub valid_token_time: int,
    pub is_deprecated: bool,
}

impl View for User {
    type V = UserView;

    open spec fn view(&self) -> UserView {
        UserView {
            id: self._id,
            username: self.username@,
            password: self.password@,
            gender: self.gender,
            education: self.education,
            description: self.description@,
            avatar: self.avatar@,
            school: self.school@,
            major: self.major@,
            phone: self.phone@,
            email: self.email@,
            following: self.following.deep_view(),
            participated: self.participated.deep_view(),
            published: self.published.deep_view(),
            collection: self.collection.deep_view(),
            register_time: self.register_time as int,
            token: self.token@,
            valid_token_time: self.valid_token_time as int,
            is_deprecated: self.is_deprecated,
        }
    }
}

/// A record as a fresh registration creates it: default profile, no session.
pub open spec fn new_account(
    id: Option<[u8; 12]>,
    username: Seq<char>,
    password: Seq<char>,
    now: int,
) -> UserView {
    UserView {
        id,
        username,
        password,
        gender: Gender::Other,
        education: Education::Other,
        description: Seq::empty(),
        avatar: Seq::empty(),
        school: Seq::empty(),
        major: Seq::empty(),
        phone: Seq::empty(),
        email: Seq::empty(),
        following: Seq::empty(),
        participated: Seq::empty(),
        published: Seq::empty(),
        collection: Seq::empty(),
        register_time: now,
        token: Seq::empty(),
        valid_token_time: 0,
        is_deprecated: false,
    }
}

/// A record as it is shown to callers: password and token blanked.
pub open spec fn public_view(u: UserView) -> UserView {
    UserView { password: Seq::empty(), token: Seq::empty(), ..u }
}

fn copy_list(v: &Vec<String>) -> (r: Vec<String>)
    ensures
        r.deep_view() == v.deep_view(),
{
    let mut r: Vec<String> = Vec::new();
    let mut i: usize = 0;
    while i < v.len()
        invariant
            i <= v.len(),
            r@ == v@.subrange(0, i as int),
        decreases v.len() - i,
    {
        r.push(v[i].clone());
        i = i + 1;
        assert(r@ =~= v@.subrange(0, i as int));
    }
    assert(r@ =~= v@);
    r
}

impl User {
    /// A record for a new account, registered at `register_time`.
    pub fn new_account(info: CreateUser, id: Option<[u8; 12]>, register_time: i64) -> (r: User)
        ensures
            r@ == new_account(id, info.username@, info.password@, register_time as int),
    {
        let r = User {
            _id: id,
            username: info.username,
            password: info.password,
            gender: Gender::Other,
            education: Education::Other,
            description: String::new(),
            avatar: String::new(),
            school: String::new(),
            major: String::new(),
            phone: String::new(),
            email: String::new(),
            following: Vec::new(),
            participated: Vec::new(),
            published: Vec::new(),
            collection: Vec::new(),
            register_time,
            token: String::new(),
            valid_token_time: 0,
            is_deprecated: false,
        };
        assert(r@.following =~= Seq::<Seq<char>>::empty());
        assert(r@.participated =~= Seq::<Seq<char>>::empty());
        assert(r@.published =~= Seq::<Seq<char>>::empty());
        assert(r@.collection =~= Seq::<Seq<char>>::empty());
        r
    }

    /// A field-by-field copy.
    pub fn copy_record(&self) -> (r: User)
        ensures
            r@ == self@,
    {
        User {
            _id: self._id,
            username: self.username.clone(),
            password: self.password.clone(),
            gender: self.gender,
            education: self.education,
            description: self.description.clone(),
            avatar: self.avatar.clone(),
            school: self.school.clone(),
            major: self.major.clone(),
            phone: self.phone.clone(),
            email: self.email.clone(),
            following: copy_list(&self.following),
            participated: copy_list(&self.participated),
            published: copy_list(&self.published),
            collection: copy_list(&self.collection),
            register_time: self.register_time,
            token: self.token.clone(),
            valid_token_time: self.valid_token_time,
            is_deprecated: self.is_deprecated,
        }
    }

    /// Blanks the password and the token, as for a record shown to callers.
    pub fn strip_secrets(&mut self)
        ensures
            final(self)@ == public_view(old(self)@),
    {
        self.password = String::new();
        self.token = String::new();
    }
}

/// What a registration or a login carries.
#[derive(Debug, Clone)]
pub struct CreateUser {
    pub username: String,
    pub password: String,
    pub phone: Option<String>,
    pub email: Option<String>,
}

/// A (username, token) pair that proves a live session.
#[derive(Debug, Clone)]
pub struct CertificateUser {
    pub username: String,
    pub token: String,
}

} // verus!
