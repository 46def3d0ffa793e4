//! Accounts: registration and login decisions, with password hashing and
//! checking.

use vstd::prelude::*;
use crate::ids::{is_random_uuid, new_uuid, uuid_parse, uuid_text, uuid_to_string};
use crate::middleware::{claims_guard, AuthGuard};
use crate::models::{Claims, LoginUserReq, LoginUserResp, RegisterUserReq, RegisterUserResp, User};
use crate::text::digit_char;
use crate::time::{now, Timestamp, MAX_SECS};

verus! {

/// Status of a created account.
pub const CREATED: u16 = 201u16;
/// Status of a successful login.
pub const OK: u16 = 200u16;
/// Status of refused credentials.
pub const UNAUTHORIZED: u16 = 401u16;
/// Status of a database failure.
pub const INTERNAL_SERVER_ERROR: u16 = 500u16;

/// The work factor of new password hashes.
pub const DEFAULT_COST: u32 = 12u32;

/// Lifetime of an access token, in seconds.
pub const TOKEN_LIFETIME_SECS: i64 = 3600i64;

/// Whether `password` matches the bcrypt hash `hash`; `None` when the hash
/// is malformed (named result of the outside check).
pub uninterp spec fn bcrypt_verify(password: Seq<char>, hash: Seq<char>) -> Option<bool>;

/// The first seven characters of a bcrypt hash of version "2b" at `cost`:
/// "$2b$", the cost in two digits, and "$".
pub open spec fn bcrypt_prefix(cost: u32) -> Seq<char> {
    seq!['$', '2', 'b', '$', digit_char((cost / 10) as nat), digit_char((cost % 10) as nat), '$']
}

/// A bcrypt hash of `password` with a random salt; `None` when the system's
/// random source fails.
///
/// Calls `bcrypt::hash`. Which salt is drawn is not stated. Its source
/// writes the hash as "$2b$", the cost in two digits, "$", then the salt
/// (22 characters) and the digest (31 characters), 60 characters in all;
/// and `bcrypt::verify` recomputes the digest from the same salt and cost,
/// so checking the same password against it succeeds.
#[verifier::external_body]
fn hash_password(password: &String, cost: u32) -> (r: Option<String>)
    requires
        4 <= cost <= 31,
    ensures
        r matches Some(h) ==> bcrypt_verify(password@, h@) == Some(true),
        r matches Some(h) ==> h@.len() == 60 && h@.subrange(0, 7) == bcrypt_prefix(cost),
{
    match bcrypt::hash(password.as_str(), cost) {
        Ok(h) => Some(h),
        Err(_) => None,
    }
}

/// Checks `password` against the bcrypt hash `hash`.
///
/// Calls `bcrypt::verify`; its result, with the error dropped, is named
/// `bcrypt_verify`.
#[verifier::external_body]
fn check_password(password: &String, hash: &String) -> (r: Option<bool>)
    ensures
        r == bcrypt_verify(password@, hash@),
{
    match bcrypt::verify(password.as_str(), hash.as_str()) {
        Ok(b) => Some(b),
        Err(_) => None,
    }
}

/// What registering an account does next.
pub enum RegisterStep {
    /// Insert this account.
    Insert(User),
    /// The password could not be hashed (the service panics here).
    HashFailed,
}

/// A new account from the registration body: a random (version 4) id, its
/// name and username, a bcrypt hash at the default cost that the body's
/// password passes, and valid clock readings (not before 1970) as instants.
pub open spec fn is_new_user(u: User, body: RegisterUserReq) -> bool {
    &&& is_random_uuid(u.id)
    &&& u.created_at.secs >= 0
    &&& u.updated_at.secs >= 0
    &&& u.name == body.name
    &&& u.username == body.username
    &&& bcrypt_verify(body.password@, u.password@) == Some(true)
    &&& u.password@.len() == 60
    &&& u.password@.subrange(0, 7) == bcrypt_prefix(DEFAULT_COST)
    &&& u.created_at.wf()
    &&& u.updated_at.wf()
}

/// First step of registering: the new account to insert (the body is not
/// validated and its address is not stored). Whether hashing succeeds rests
/// on the system's random source; see `register_user_with` for the step
/// given each outcome.
pub fn register_user(body: RegisterUserReq) -> (r: RegisterStep)
    ensures
        r matches RegisterStep::Insert(u) ==> is_new_user(u, body),
{
    let id = new_uuid();
    let hashed = hash_password(&body.password, DEFAULT_COST);
    let created_at = now();
    let updated_at = now();
    register_user_with(id, body, hashed, created_at, updated_at)
}

/// The registration step given a fresh id, the outcome of hashing the
/// body's password (`None` when it failed) and the two instants: the
/// account to insert, or `HashFailed`.
pub fn register_user_with(
    id: u128,
    body: RegisterUserReq,
    hashed: Option<String>,
    created_at: Timestamp,
    updated_at: Timestamp,
) -> (r: RegisterStep)
    ensures
        match hashed {
            None => r is HashFailed,
            Some(h) => r == RegisterStep::Insert(
                User {
                    id,
                    name: body.name,
                    username: body.username,
                    password: h,
                    created_at,
                    updated_at,
                },
            ),
        },
{
    match hashed {
        None => RegisterStep::HashFailed,
        Some(password) => RegisterStep::Insert(
            User {
                id,
                name: body.name,
                username: body.username,
                password,
                created_at,
                updated_at,
            },
        ),
    }
}

/// Last step of registering, from the result of the insert: 201 with the
/// account's id, name and username, or 500 with no body.
pub fn register_user_finish(inserted: Result<User, String>) -> (r: (u16, Option<RegisterUserResp>))
    ensures
        match inserted {
            Ok(d) => r == (CREATED, Some(
                RegisterUserResp { id: d.id, name: d.name, username: d.username },
            )),
            Err(_) => r == (INTERNAL_SERVER_ERROR, None::<RegisterUserResp>),
        },
{
    match inserted {
        Ok(d) => (CREATED, Some(RegisterUserResp { id: d.id, name: d.name, username: d.username })),
        Err(_) => (INTERNAL_SERVER_ERROR, None),
    }
}

/// Claims `c` are those of a token issued at `at` for account `u`.
pub open spec fn is_claims_for(c: Claims, u: User, at: Timestamp) -> bool {
    &&& c.sub@ == uuid_text(u.id)
    &&& uuid_parse(c.sub@) == Some(u.id)
    &&& c.name == u.name
    &&& c.username == u.username
    &&& c.exp == (at.secs + TOKEN_LIFETIME_SECS) as usize
}

/// The claims of a token issued at `at` for account `u`.
pub fn token_claims(u: &User, at: Timestamp) -> (c: Claims)
    requires
        at.wf(),
    ensures
        is_claims_for(c, *u, at),
{
    let sub = uuid_to_string(u.id);
    let exp_secs: i64 = at.secs + TOKEN_LIFETIME_SECS;
    Claims { sub, name: u.name.clone(), username: u.username.clone(), exp: exp_secs as usize }
}

/// What a login does next.
pub enum LoginStep {
    /// Answer now.
    Reply(u16, Option<LoginUserResp>),
    /// Sign a token with these claims.
    IssueToken(Claims),
    /// The stored hash is malformed (the service panics here).
    PasswordCheckFailed,
    /// The clock is too close to the end of the calendar for the expiry
    /// (the service panics here).
    ExpiryOutOfRange,
}

/// The login step of account `u` whose password passed, at clock reading
/// `at`: claims issued at `at`, unless the expiry one hour later would pass
/// the end of the calendar.
pub open spec fn is_login_step_at(r: LoginStep, u: User, at: Timestamp) -> bool {
    if at.secs > MAX_SECS - TOKEN_LIFETIME_SECS {
        r is ExpiryOutOfRange
    } else {
        r matches LoginStep::IssueToken(c) && is_claims_for(c, u, at)
    }
}

/// The step of a login whose password passed, at clock reading `at`.
pub fn login_step_at(u: &User, at: Timestamp) -> (r: LoginStep)
    requires
        at.wf(),
    ensures
        is_login_step_at(r, *u, at),
{
    if at.secs > MAX_SECS - TOKEN_LIFETIME_SECS {
        return LoginStep::ExpiryOutOfRange;
    }
    let c = token_claims(u, at);
    LoginStep::IssueToken(c)
}

/// A login, from the lookup of the account by username: a password that
/// passes the stored hash gets the step of `login_step_at` at the current
/// clock reading; a wrong password or an unknown username is answered 401;
/// a database failure 500.
pub fn login_user(body: &LoginUserReq, found: Result<Option<User>, String>) -> (r: LoginStep)
    ensures
        match found {
            Ok(Some(u)) => match bcrypt_verify(body.password@, u.password@) {
                None => r is PasswordCheckFailed,
                Some(false) => r == LoginStep::Reply(UNAUTHORIZED, None),
                Some(true) => exists|at: Timestamp|
                    at.wf() && at.secs >= 0 && #[trigger] is_login_step_at(r, u, at),
            },
            Ok(None) => r == LoginStep::Reply(UNAUTHORIZED, None),
            Err(_) => r == LoginStep::Reply(INTERNAL_SERVER_ERROR, None),
        },
{
    match found {
        Ok(Some(u)) => {
            match check_password(&body.password, &u.password) {
                None => LoginStep::PasswordCheckFailed,
                Some(false) => LoginStep::Reply(UNAUTHORIZED, None),
                Some(true) => {
                    let at = now();
                    let r = login_step_at(&u, at);
                    assert(at.wf() && at.secs >= 0 && is_login_step_at(r, u, at));
                    r
                },
            }
        },
        Ok(None) => LoginStep::Reply(UNAUTHORIZED, None),
        Err(_) => LoginStep::Reply(INTERNAL_SERVER_ERROR, None),
    }
}

/// Last step of a login: 200 with the signed token.
pub fn login_user_finish(token: String) -> (r: (u16, Option<LoginUserResp>))
    ensures
        r.0 == OK,
        r.1 == Some(LoginUserResp { token }),
{
    (OK, Some(LoginUserResp { token }))
}

/// A token issued at clock reading `at` expires exactly one hour after
/// `at` (where that second count fits in `usize`), so it is valid when
/// issued; and of two readings the later one never gets the earlier expiry.
pub proof fn lemma_token_valid_one_hour(
    u: User,
    at1: Timestamp,
    r1: LoginStep,
    at2: Timestamp,
    r2: LoginStep,
)
    requires
        0 <= at1.secs <= at2.secs <= MAX_SECS - TOKEN_LIFETIME_SECS,
        at2.secs + TOKEN_LIFETIME_SECS <= usize::MAX,
        is_login_step_at(r1, u, at1),
        is_login_step_at(r2, u, at2),
    ensures
        r1 matches LoginStep::IssueToken(c1) && c1.exp == at1.secs + TOKEN_LIFETIME_SECS
            && c1.exp > at1.secs,
        r2 matches LoginStep::IssueToken(c2) && c2.exp == at2.secs + TOKEN_LIFETIME_SECS,
        r1 matches LoginStep::IssueToken(c1) && r2 matches LoginStep::IssueToken(c2) && c1.exp
            <= c2.exp,
{
}

/// A token issued at login authenticates as the account that logged in:
/// its claims, decoded intact, name that account's id, name and username.
pub proof fn lemma_issued_claims_authenticate(c: Claims, u: User, at: Timestamp)
    requires
        is_claims_for(c, u, at),
    ensures
        claims_guard(c) == Some(AuthGuard { user_id: u.id, name: u.name, username: u.username }),
{
}

/// An account registered with a password passes the login check with that
/// same password: the login is never refused with 401 nor stops on a
/// malformed hash, and at any clock reading an hour or more before the end
/// of the calendar it issues claims for that account at that reading.
pub proof fn lemma_registered_password_logs_in(
    reg: RegisterUserReq,
    u: User,
    login: LoginUserReq,
    at: Timestamp,
    r: LoginStep,
)
    requires
        is_new_user(u, reg),
        login.password@ == reg.password@,
        at.secs <= MAX_SECS - TOKEN_LIFETIME_SECS,
        is_login_step_at(r, u, at),
    ensures
        bcrypt_verify(login.password@, u.password@) == Some(true),
        r matches LoginStep::IssueToken(c) && is_claims_for(c, u, at),
{
}

} // verus!
