//! Users, sessions and the access guards of the admin area.
//!
//! A logged-in session carries the user's id, in decimal, in the private
//! cookie `user_id`.  A request from a logged-in user acts as an admin when
//! the user is an admin or a superadmin, and as a superadmin only when the
//! user is a superadmin.
use vstd::prelude::*;
use vstd::string::*;
use vstd::utf8::*;
use crate::decimal::{
    decimal_i32, format_i32, lemma_parse_decimal_roundtrip, parse_i32, parse_i32_spec,
};
use crate::password::{
    argon2_decode, argon2_decodes, argon2_verifies, argon2_verify, argon2i_encoding, ascii_text,
    hash_accepts, hash_password, is_usable_stored_hash, stored_hash_usable,
};

verus! {

/// A user of the site, as stored.
pub struct User {
    pub id: i32,
    pub name: String,
    /// The stored hash of the user's password (see `hash_password`).
    pub password: String,
    pub admin: bool,
    pub superadmin: bool,
    /// When the user was created, in seconds since 1970-01-01 00:00:00.
    pub created: i64,
}

/// A logged-in user who may use the admin area.
pub struct Admin(pub User);

/// A logged-in user who may also manage users.
pub struct SuperAdmin(pub User);

/// Whether a user may use the admin area.
pub open spec fn may_admin(user: User) -> bool {
    user.admin || user.superadmin
}

/// Whether a user may manage users.
pub open spec fn may_superadmin(user: User) -> bool {
    user.superadmin
}

impl Admin {
    /// The admin guard: the user acts as an admin when an admin or a
    /// superadmin, and is turned away otherwise.
    pub fn from_user(user: User) -> (r: Option<Admin>)
        ensures
            r is Some <==> may_admin(user),
            r is Some <==> (user.admin || user.superadmin),
            r matches Some(a) ==> a.0 == user,
    {
        if user.admin || user.superadmin {
            Some(Admin(user))
        } else {
            None
        }
    }
}

impl SuperAdmin {
    /// The superadmin guard: only a superadmin passes.
    pub fn from_user(user: User) -> (r: Option<SuperAdmin>)
        ensures
            r is Some <==> may_superadmin(user),
            r is Some <==> user.superadmin,
            r matches Some(a) ==> a.0 == user,
    {
        if user.superadmin {
            Some(SuperAdmin(user))
        } else {
            None
        }
    }
}

/// Whoever passes the superadmin guard passes the admin guard too.
pub proof fn lemma_superadmin_is_admin(user: User)
    ensures
        may_superadmin(user) ==> may_admin(user),
{
}

/// The guards go by the flags alone: the superadmin guard admits exactly
/// the users whose superadmin flag is set, whatever their admin flag says,
/// and the admin guard admits exactly those with either flag set.  Neither
/// looks at the id, the name, the password or the creation time.
pub proof fn lemma_guards_follow_flags(user: User, other: User)
    ensures
        may_superadmin(user) <==> user.superadmin,
        may_admin(user) <==> user.admin || user.superadmin,
        user.admin == other.admin && user.superadmin == other.superadmin ==> (may_admin(user)
            == may_admin(other) && may_superadmin(user) == may_superadmin(other)),
{
}

/// The value of the session cookie for `user`: the user's id in decimal.
pub fn user_id_cookie(user: &User) -> (r: String)
    ensures
        r@ == decimal_i32(user.id),
{
    format_i32(user.id)
}

/// The user id that the session cookie names, if its value is the decimal
/// text of an `i32`.
pub fn user_id_from_cookie(value: &str) -> (r: Option<i32>)
    ensures
        r == parse_i32_spec(value@),
{
    parse_i32(value)
}

/// The session cookie written for a user names that same user when it is
/// read back.
pub proof fn lemma_session_cookie_roundtrip(user: User)
    ensures
        parse_i32_spec(decimal_i32(user.id)) == Some(user.id),
{
    lemma_parse_decimal_roundtrip(user.id);
}

/// The answer to a login attempt.
pub enum Login {
    /// The password matched: the session cookie gets this value, and the
    /// user is sent to the admin area.
    Accepted { user_id: String },
    /// No such user, or the password did not match: back to the login page.
    Refused,
}

/// Why a login attempt could not be decided.
pub enum LoginError {
    /// `argon2rs` cannot read the user's stored password hash, or the
    /// session it holds asks for a salt, key or data that Argon2 does not
    /// hash with.
    UnreadableStoredHash,
}

impl Login {
    /// Where the browser is sent after the attempt.
    pub fn redirect(&self) -> (r: &'static str)
        ensures
            self is Accepted ==> r@ == "/admin"@,
            self is Refused ==> r@ == "/login"@,
    {
        match self {
            Login::Accepted { .. } => "/admin",
            Login::Refused => "/login",
        }
    }
}

/// Whether the stored hash of `user` can be checked against passwords: it
/// follows the layout that `argon2rs` reads, `argon2rs` decodes it, and the
/// decoded session is within Argon2's bounds.
pub open spec fn stored_hash_readable(user: User) -> bool {
    stored_hash_usable(user.password@) && argon2_decodes(user.password@)
}

/// Whether `password` is the password of `user`.
pub open spec fn password_matches(user: User, password: Seq<char>) -> bool {
    argon2_verifies(user.password@, password)
}

/// The answer owed to a login attempt by the user found under the given
/// name (`None`: no such user) with `password`.
pub open spec fn login_answer(user: Option<User>, password: Seq<char>, r: Login) -> bool {
    match r {
        Login::Accepted { user_id } => user matches Some(u) && password_matches(u, password)
            && user_id@ == decimal_i32(u.id),
        Login::Refused => user is None || !password_matches(user->0, password),
    }
}

/// Decides a login attempt with `password` by the user found under the
/// given name.  The user's stored hash must be readable, as reading it
/// fails otherwise.
pub fn login_user(user: Option<&User>, password: &str) -> (r: Login)
    requires
        password.spec_bytes().len() <= u32::MAX,
        user matches Some(u) ==> stored_hash_readable(*u),
    ensures
        r is Accepted <==> (user matches Some(u) && argon2_verifies(u.password@, password@)),
        r matches Login::Accepted { user_id } ==> (user matches Some(u) && user_id@ == decimal_i32(
            u.id,
        )),
        login_answer(
            match user {
                Some(u) => Some(*u),
                None => None,
            },
            password@,
            r,
        ),
{
    match user {
        None => Login::Refused,
        Some(u) => {
            match argon2_decode(u.password.as_str()) {
                None => Login::Refused,
                Some(stored) => {
                    if argon2_verify(&stored, password) {
                        Login::Accepted { user_id: user_id_cookie(u) }
                    } else {
                        Login::Refused
                    }
                },
            }
        },
    }
}

/// Decides a login attempt like `login_user`, and reports a stored hash
/// that cannot be read instead of requiring a readable one.
pub fn try_login_user(user: Option<&User>, password: &str) -> (r: Result<Login, LoginError>)
    requires
        password.spec_bytes().len() <= u32::MAX,
    ensures
        user is None ==> r matches Ok(Login::Refused),
        user matches Some(u) ==> (r is Err <==> !stored_hash_readable(*u)),
        r matches Ok(l) ==> login_answer(
            match user {
                Some(u) => Some(*u),
                None => None,
            },
            password@,
            l,
        ),
{
    match user {
        None => Ok(Login::Refused),
        Some(u) => {
            if !is_usable_stored_hash(u.password.as_str()) {
                return Err(LoginError::UnreadableStoredHash);
            }
            match argon2_decode(u.password.as_str()) {
                None => Err(LoginError::UnreadableStoredHash),
                Some(_) => Ok(login_user(Some(u), password)),
            }
        },
    }
}

/// The fields of a new user as entered in the form.
pub struct NewUser {
    pub name: String,
    pub password: String,
    pub admin: bool,
    pub superadmin: bool,
}

/// The new user to store for the form: the entered password is replaced by
/// its hash; the name and the rights are kept.
pub fn new_user(form: &NewUser) -> (r: NewUser)
    requires
        encode_utf8(form.password@).len() <= u32::MAX,
    ensures
        r.name@ == form.name@,
        r.admin == form.admin,
        r.superadmin == form.superadmin,
        exists|salt: Seq<u8>|
            salt.len() == 16 && r.password@ == ascii_text(
                #[trigger] argon2i_encoding(form.password@, salt),
            ),
        hash_accepts(r.password@, form.password@),
{
    NewUser {
        name: form.name.clone(),
        password: hash_password(&form.password),
        admin: form.admin,
        superadmin: form.superadmin,
    }
}

/// A user stored with the password hash made for `password` can log in
/// with `password`: the hash is readable and the attempt is accepted.
pub proof fn lemma_stored_password_logs_in(user: User, password: Seq<char>)
    requires
        hash_accepts(user.password@, password),
    ensures
        stored_hash_readable(user),
        password_matches(user, password),
        forall|r: Login| #[trigger] login_answer(Some(user), password, r) ==> r is Accepted,
{
}

} // verus!
