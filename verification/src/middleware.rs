//! Authentication of a request from its `Authorization` header.

use vstd::prelude::*;
use vstd::string::StringExecFns;
use crate::ids::{parse_uuid, uuid_parse};
use crate::models::{ApiResponse, Claims};
use crate::text::{remove_all, remove_all_occurrences};
use crate::time::Timestamp;

verus! {

/// Status of a refused authentication.
pub const UNAUTHORIZED: u16 = 401u16;

/// The account a request acts for.
#[derive(Clone, Debug, PartialEq)]
pub struct AuthGuard {
    pub user_id: u128,
    pub name: String,
    pub username: String,
}

/// Where authenticating a request goes once its token has been decoded.
pub enum AuthOutcome {
    /// The token holds a valid subject: the request acts for this account.
    Accepted(AuthGuard),
    /// The request is refused with this status and reply.
    Rejected(u16, ApiResponse<()>),
    /// The token decoded but its subject is not a UUID (the service
    /// panics here).
    InvalidSubject,
}

/// The account named by decoded claims: the subject parsed as a UUID, with
/// the claims' name and username; `None` when the subject is not a UUID.
pub open spec fn claims_guard(c: Claims) -> Option<AuthGuard> {
    match uuid_parse(c.sub@) {
        Some(id) => Some(AuthGuard { user_id: id, name: c.name, username: c.username }),
        None => None,
    }
}

/// The token text of a header value: the value with every "Bearer "
/// removed.
pub open spec fn token_of_header(h: Seq<char>) -> Seq<char> {
    remove_all(h, "Bearer "@)
}

impl AuthGuard {
    /// First step of authentication: the token to decode, or, with no
    /// header, a 401 reply "token is required".
    pub fn token_from_header(t_in: Timestamp, header: Option<String>) -> (r: Result<
        String,
        (u16, ApiResponse<()>),
    >)
        requires
            t_in.wf(),
        ensures
            match header {
                Some(h) => r matches Ok(tok) && tok@ == token_of_header(h@),
                None => r matches Err(rej) && rej.0 == UNAUTHORIZED && rej.1.is_error_of(
                    t_in,
                    UNAUTHORIZED,
                    "token is required"@,
                ),
            },
    {
        match header {
            Some(h) => Ok(remove_all_occurrences(h.as_str(), "Bearer ")),
            None => Err(
                (
                    UNAUTHORIZED,
                    ApiResponse::error(t_in, UNAUTHORIZED, String::from_str("token is required")),
                ),
            ),
        }
    }

    /// Second step of authentication, from the decoded claims (`None` when
    /// the token is invalid or expired): a 401 reply "invalid or expired
    /// token", the account named by the claims, or `InvalidSubject` when the
    /// subject is not a UUID.
    pub fn from_claims(t_in: Timestamp, decoded: Option<Claims>) -> (r: AuthOutcome)
        requires
            t_in.wf(),
        ensures
            match decoded {
                None => r matches AuthOutcome::Rejected(status, reply) && status == UNAUTHORIZED
                    && reply.is_error_of(t_in, UNAUTHORIZED, "invalid or expired token"@),
                Some(c) => match claims_guard(c) {
                    Some(g) => r == AuthOutcome::Accepted(g),
                    None => r is InvalidSubject,
                },
            },
    {
        match decoded {
            None => AuthOutcome::Rejected(
                UNAUTHORIZED,
                ApiResponse::error(
                    t_in,
                    UNAUTHORIZED,
                    String::from_str("invalid or expired token"),
                ),
            ),
            Some(c) => match parse_uuid(&c.sub) {
                Some(id) => AuthOutcome::Accepted(
                    AuthGuard { user_id: id, name: c.name, username: c.username },
                ),
                None => AuthOutcome::InvalidSubject,
            },
        }
    }
}

/// A header holding "Bearer " followed by a token that itself holds no
/// "Bearer " yields that token.
pub proof fn lemma_bearer_header_yields_token(token: Seq<char>)
    requires
        forall|i: int| 0 <= i <= token.len() - 7 ==> #[trigger] token.subrange(i, i + 7) != "Bearer "@,
    ensures
        token_of_header("Bearer "@ + token) == token,
{
    reveal_strlit("Bearer ");
    let pat = "Bearer "@;
    let h = pat + token;
    assert(h.subrange(0, 7) =~= pat);
    assert(h.skip(7) =~= token);
    lemma_remove_all_absent(token, pat);
}

/// Removing a pattern that does not occur leaves the text unchanged.
pub proof fn lemma_remove_all_absent(s: Seq<char>, pat: Seq<char>)
    requires
        forall|i: int| 0 <= i <= s.len() - pat.len() ==> #[trigger] s.subrange(i, i + pat.len()) != pat,
    ensures
        remove_all(s, pat) == s,
    decreases s.len(),
{
    if pat.len() == 0 || s.len() < pat.len() {
    } else {
        let k: int = 0;
        assert(s.subrange(k, k + pat.len()) != pat);
        assert(s.subrange(k, k + pat.len()) == s.subrange(0, pat.len() as int));
        let t = s.skip(1);
        assert forall|i: int| 0 <= i <= t.len() - pat.len() implies #[trigger] t.subrange(
            i,
            i + pat.len(),
        ) != pat by {
            assert(t.subrange(i, i + pat.len()) =~= s.subrange(i + 1, i + 1 + pat.len()));
        }
        lemma_remove_all_absent(t, pat);
        assert(seq![s[0]] + t =~= s);
    }
}

} // verus!
